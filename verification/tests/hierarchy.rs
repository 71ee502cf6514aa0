use navigator_store::authority::{
    authority_event_name, capability_name, check_authority_effect, compose_child_policy,
    create_authorized_child, is_grant_usable, issue_grant, put_authority_policy,
    register_authority_template_policy, revoke_grant, spend_grant, validate_spawn_replay,
    validate_template_policy_replay,
    AuthorityPolicy, AuthorityTemplatePolicy, AuthorizedChildFacts, CreateAuthorizedChild, Grant,
    GrantSnapshot, ResourceScope, StoreCapability,
};
use navigator_store::error::{Refusal, StoreError};
use navigator_store::hierarchy::{
    apply_hierarchy_effect, authorized_status, cancel_operation, cancel_subtree,
    find_cancel_notification, operation_of, plan_hierarchy_effect, refresh_cancellation,
    status_authority, validate_effect_replay, validate_subtree_root, write_hierarchy_effect,
    AuthorizedStatus, CancellationRecord, CancellationStep, CancellationTerms, EffectAnswer,
    EffectFacts, EffectWrites, HierarchyEffect, StatusAnswer, StatusReply, SubtreeOperation,
};
use navigator_store::ids::{
    Digest, GrantId, MessageId, OperationId, ParticipantId, RequestId, Revision, SessionId,
    TemplateId,
};
use navigator_store::mailbox::{
    ControlKind, MailboxCounter, MessageBody, MessagePriority, StoreLimits,
};
use navigator_store::operation::{
    OperationAction, OperationSnapshot, OperationState, OutcomeKind, ParticipantSnapshot,
    TerminalOutcome,
};
use navigator_store::time::Timestamp;

const SESSION: SessionId = SessionId(1);
const ROOT: ParticipantId = ParticipantId(10);
const CHILD: ParticipantId = ParticipantId(11);
const OPERATION: OperationId = OperationId(20);
const INPUT: MessageId = MessageId(30);
const LIMITS: StoreLimits = StoreLimits {
    max_participant_depth: 3,
    max_direct_children: 2,
    max_session_participants: 5,
    mailbox_queued_bytes: 100,
    mailbox_queued_messages: 2,
    mailbox_reserved_outcome_bytes: 50,
    mailbox_reserved_outcomes: 1,
    max_delivery_attempts: 3,
    max_lease_millis: 300_000,
};

fn at(seconds: i64) -> Timestamp {
    Timestamp { seconds, nanos: 0 }
}

fn digest(n: u128) -> Digest {
    Digest { high: n, low: n }
}

fn kept(error: StoreError) -> Refusal {
    Refusal { error, recorded: true }
}

fn bare(error: StoreError) -> Refusal {
    Refusal { error, recorded: false }
}

fn participant(
    id: ParticipantId,
    parent: Option<ParticipantId>,
    depth: u32,
) -> ParticipantSnapshot {
    ParticipantSnapshot {
        session_id: SESSION,
        participant_id: id,
        parent_participant_id: parent,
        depth,
        template_id: TemplateId(5),
        template_compatibility: digest(5),
        revision: Revision(1),
    }
}

fn root() -> ParticipantSnapshot {
    participant(ROOT, None, 1)
}

fn child() -> ParticipantSnapshot {
    participant(CHILD, Some(ROOT), 2)
}

fn operation(state: OperationState) -> OperationSnapshot {
    OperationSnapshot {
        session_id: SESSION,
        operation_id: OPERATION,
        participant_id: CHILD,
        start_request_id: RequestId(40),
        input_message_id: INPUT,
        waiting_on_message_id: None,
        input_digest: digest(6),
        state,
        revision: Revision(3),
        terminal_outcome: None,
        created_at: at(50),
        updated_at: at(60),
    }
}

fn grant() -> Grant {
    Grant {
        id: GrantId(80),
        session_id: SESSION,
        subject: ROOT,
        authority: digest(8),
        revoked: false,
    }
}

fn given(single_use: bool, consumed_at: Option<Timestamp>) -> GrantSnapshot {
    GrantSnapshot { grant: grant(), single_use, consumed_at }
}

fn policy(participant_id: ParticipantId) -> AuthorityPolicy {
    AuthorityPolicy {
        session_id: SESSION,
        participant_id,
        session: digest(1),
        parent: digest(2),
        template: digest(3),
        relationship: digest(4),
        subject: digest(5),
    }
}

fn template_policy(parents: Vec<TemplateId>) -> AuthorityTemplatePolicy {
    AuthorityTemplatePolicy {
        template_id: TemplateId(6),
        allowed_parent_templates: parents,
        template: digest(13),
        relationship: digest(14),
        subject: digest(15),
    }
}

fn spawn_command(size: u64) -> CreateAuthorizedChild {
    CreateAuthorizedChild {
        request_id: RequestId(40),
        session_id: SESSION,
        parent_participant_id: ROOT,
        participant_id: CHILD,
        template_id: TemplateId(6),
        expected_compatibility: digest(7),
        operation_id: OPERATION,
        input_message_id: INPUT,
        input_digest: digest(6),
        envelope_size: size,
    }
}

fn spawn_facts() -> AuthorizedChildFacts {
    AuthorizedChildFacts {
        parent: Some(root()),
        parent_cancelled: false,
        template: Some(digest(7)),
        template_allowed: true,
        input_valid: true,
        template_policy: Some(template_policy(vec![TemplateId(5)])),
        parent_policy: Some(policy(ROOT)),
        authorized: true,
        grant: Some(given(true, None)),
        child_active: vec![true, true],
        child_delegable: vec![true],
        exists: false,
        operation_exists: false,
        message_exists: false,
        direct: 0,
        total: 1,
    }
}

fn facts(
    caller: ParticipantSnapshot,
    target: ParticipantSnapshot,
    state: OperationState,
) -> EffectFacts {
    EffectFacts {
        caller: Some(caller),
        operation: Some(operation(state)),
        target: Some(target),
        authorized: true,
        grant: None,
        message_exists: false,
        counter: None,
        envelope_size: 40,
        priority: MessagePriority::Ordinary,
    }
}

fn question() -> HierarchyEffect {
    HierarchyEffect::QuestionUpward {
        message_id: MessageId(33),
        operation_id: OPERATION,
        delivered_message_id: INPUT,
        code: digest(1),
        grant_id: None,
    }
}

fn cancel() -> HierarchyEffect {
    HierarchyEffect::CancelChild {
        message_id: MessageId(34),
        child_id: CHILD,
        operation_id: OPERATION,
        grant_id: None,
    }
}

fn answer(in_reply_to: u128) -> HierarchyEffect {
    HierarchyEffect::ResumeChild {
        message_id: MessageId(35),
        child_id: CHILD,
        operation_id: OPERATION,
        in_reply_to: MessageId(in_reply_to),
        feedback: digest(2),
        grant_id: None,
    }
}

fn terms() -> CancellationTerms {
    CancellationTerms {
        cancelled_digest: digest(99),
        priority: MessagePriority::Control,
        limits: LIMITS,
        now: at(100),
    }
}

fn part(operation: OperationSnapshot, launch_exists: bool, message: u128) -> SubtreeOperation {
    SubtreeOperation {
        operation,
        launch_exists,
        message_id: MessageId(message),
        message_exists: false,
        counter: None,
        envelope_size: 40,
    }
}

#[test]
fn grants_are_given_withdrawn_and_used_up() {
    assert_eq!(
        issue_grant(SESSION, grant(), true, true, true, true, false),
        Ok(given(true, None))
    );
    assert_eq!(
        issue_grant(SESSION, grant(), true, true, false, true, false),
        Err(bare(StoreError::Invalid))
    );
    for (session, active, authorized, exists) in [
        (SessionId(2), true, true, false),
        (SESSION, false, true, false),
        (SESSION, true, false, false),
        (SESSION, true, true, true),
    ] {
        assert_eq!(
            issue_grant(session, grant(), true, active, true, authorized, exists),
            Err(kept(StoreError::Invalid))
        );
    }
    let withdrawn = revoke_grant(SESSION, Some(given(false, None))).unwrap();
    assert!(withdrawn.grant.revoked);
    assert_eq!(revoke_grant(SESSION, None), Err(bare(StoreError::Invalid)));
    assert_eq!(
        revoke_grant(SessionId(2), Some(given(false, None))),
        Err(kept(StoreError::Invalid))
    );
    let used = check_authority_effect(true, Some(given(true, None)), at(9));
    assert!(used.allowed);
    assert_eq!(used.grant, Some(given(true, Some(at(9)))));
    let again = check_authority_effect(true, used.grant, at(10));
    assert!(!again.allowed);
    assert_eq!(again.grant, None);
    let lasting = check_authority_effect(true, Some(given(false, None)), at(9));
    assert_eq!((lasting.allowed, lasting.grant), (true, None));
    assert!(!check_authority_effect(false, None, at(9)).allowed);
    assert!(is_grant_usable(None));
    assert_eq!(spend_grant(None, at(1)), None);
    assert_eq!(authority_event_name(true), "authority.allowed");
    assert_eq!(authority_event_name(false), "authority.denied");
    assert_eq!(capability_name(StoreCapability::ResolveUncertainty), "effect.resolve_uncertainty");
}

#[test]
fn policies_are_put_in_place_once() {
    let put = |active: Vec<bool>, existing| {
        put_authority_policy(SESSION, policy(ROOT), Some(root()), &active, &vec![true], existing)
    };
    assert_eq!(put(vec![true, true], None), Ok(true));
    assert_eq!(put(vec![true], Some(policy(ROOT))), Ok(false));
    assert_eq!(put(vec![true, false], None), Err(kept(StoreError::Invalid)));
    let changed = AuthorityPolicy { subject: digest(9), ..policy(ROOT) };
    assert_eq!(put(vec![true], Some(changed)), Err(kept(StoreError::Invalid)));
    assert_eq!(
        put_authority_policy(SESSION, policy(ROOT), None, &vec![], &vec![], None),
        Err(kept(StoreError::Invalid))
    );
    let one = template_policy(vec![TemplateId(5)]);
    assert_eq!(register_authority_template_policy(&one, true, None), Ok(true));
    assert_eq!(register_authority_template_policy(&one, true, Some(&one)), Ok(false));
    let two = template_policy(vec![TemplateId(5), TemplateId(6)]);
    for (policy, registered, existing) in [
        (&one, true, Some(&two)),
        (&one, false, None),
        (&template_policy(vec![]), true, None),
    ] {
        assert_eq!(
            register_authority_template_policy(policy, registered, existing),
            Err(kept(StoreError::Invalid))
        );
    }
    assert_eq!(validate_template_policy_replay(&one, Some(&one)), Ok(()));
    assert_eq!(validate_template_policy_replay(&one, Some(&two)), Err(StoreError::Corrupt));
    assert_eq!(validate_template_policy_replay(&one, None), Err(StoreError::Corrupt));
}

#[test]
fn a_working_child_is_bounded_by_its_parent() {
    let plan = create_authorized_child(spawn_command(40), &spawn_facts(), LIMITS, at(50))
        .unwrap()
        .unwrap();
    assert_eq!(plan.participant.depth, 2);
    assert_eq!(plan.participant.parent_participant_id, Some(ROOT));
    assert_eq!(plan.policy.session, digest(1));
    assert_eq!(plan.policy.parent, digest(5));
    assert_eq!(plan.policy.subject, digest(15));
    assert_eq!(
        plan.policy,
        compose_child_policy(
            spawn_command(40),
            &template_policy(vec![TemplateId(5)]),
            policy(ROOT)
        )
    );
    assert_eq!(plan.operation.state, OperationState::Queued);
    assert_eq!(
        plan.counter,
        MailboxCounter { next_sequence: 2, queued_bytes: 40, queued_messages: 1 }
    );
    assert_eq!(plan.grant, Some(given(true, Some(at(50)))));
    assert_eq!(
        validate_spawn_replay(
            plan.participant,
            plan.policy,
            plan.operation,
            Some(plan.participant),
            Some(plan.policy),
            Some(plan.operation),
            Some(plan.message)
        ),
        Ok(())
    );
    assert_eq!(
        validate_spawn_replay(
            plan.participant,
            plan.policy,
            plan.operation,
            Some(plan.participant),
            Some(plan.policy),
            Some(plan.operation),
            None
        ),
        Err(StoreError::Corrupt)
    );
}

#[test]
fn a_working_child_is_denied_without_authority() {
    let denied = [
        AuthorizedChildFacts { parent: None, ..spawn_facts() },
        AuthorizedChildFacts { parent: Some(participant(ROOT, None, 3)), ..spawn_facts() },
        AuthorizedChildFacts { template: None, ..spawn_facts() },
        AuthorizedChildFacts { template_allowed: false, ..spawn_facts() },
        AuthorizedChildFacts { input_valid: false, ..spawn_facts() },
        AuthorizedChildFacts { template_policy: None, ..spawn_facts() },
        AuthorizedChildFacts {
            template_policy: Some(template_policy(vec![TemplateId(9)])),
            ..spawn_facts()
        },
        AuthorizedChildFacts { parent_policy: None, ..spawn_facts() },
        AuthorizedChildFacts { authorized: false, ..spawn_facts() },
        AuthorizedChildFacts { grant: Some(given(true, Some(at(1)))), ..spawn_facts() },
        AuthorizedChildFacts { child_active: vec![true, false], ..spawn_facts() },
        AuthorizedChildFacts { child_delegable: vec![false], ..spawn_facts() },
        AuthorizedChildFacts { exists: true, ..spawn_facts() },
        AuthorizedChildFacts { operation_exists: true, ..spawn_facts() },
        AuthorizedChildFacts { message_exists: true, ..spawn_facts() },
        AuthorizedChildFacts { direct: 2, ..spawn_facts() },
        AuthorizedChildFacts { total: 5, ..spawn_facts() },
    ];
    for facts in &denied {
        assert_eq!(create_authorized_child(spawn_command(40), facts, LIMITS, at(50)), Ok(None));
    }
    let cancelled = AuthorizedChildFacts { parent_cancelled: true, ..spawn_facts() };
    assert_eq!(
        create_authorized_child(spawn_command(40), &cancelled, LIMITS, at(50)),
        Err(kept(StoreError::Invalid))
    );
    assert_eq!(
        create_authorized_child(spawn_command(u64::MAX), &spawn_facts(), LIMITS, at(50)),
        Err(bare(StoreError::MessageOversize))
    );
}

#[test]
fn a_question_goes_to_the_parent_and_is_waited_for() {
    let asked = apply_hierarchy_effect(
        SESSION,
        question(),
        facts(child(), root(), OperationState::Running),
        LIMITS,
        at(70),
    )
    .unwrap()
    .unwrap();
    assert_eq!(asked.message.message.source, CHILD);
    assert_eq!(asked.message.message.destination, ROOT);
    assert_eq!(asked.operation.state, OperationState::Waiting);
    assert_eq!(asked.operation.waiting_on_message_id, Some(MessageId(33)));
    assert!(asked.operation_moved);
    let answered = apply_hierarchy_effect(
        SESSION,
        answer(33),
        EffectFacts {
            operation: Some(asked.operation),
            ..facts(root(), child(), OperationState::Waiting)
        },
        LIMITS,
        at(80),
    )
    .unwrap()
    .unwrap();
    assert_eq!(answered.message.message.correlation.in_reply_to, Some(MessageId(33)));
    assert!(!answered.operation_moved);
    assert_eq!(answered.operation, asked.operation);
    assert_eq!(
        apply_hierarchy_effect(
            SESSION,
            answer(36),
            EffectFacts {
                operation: Some(asked.operation),
                ..facts(root(), child(), OperationState::Waiting)
            },
            LIMITS,
            at(80)
        ),
        Ok(None)
    );
    let recorded = EffectAnswer::Allowed {
        message: asked.message.message,
        operation: asked.operation,
    };
    assert_eq!(write_hierarchy_effect(Some(asked), at(70)).answer, recorded);
    assert_eq!(validate_effect_replay(recorded, None), Err(StoreError::Corrupt));
    assert_eq!(
        validate_effect_replay(recorded, Some(answered.message.message)),
        Err(StoreError::Corrupt)
    );
    assert_eq!(validate_effect_replay(recorded, Some(asked.message.message)), Ok(()));
    assert_eq!(operation_of(question()), Some(OPERATION));
}

#[test]
fn a_denied_effect_leaves_everything_as_it_was() {
    assert_eq!(
        write_hierarchy_effect(None, at(70)),
        EffectWrites {
            message: None,
            operation: None,
            grant: None,
            told_allowed: false,
            time_floor: at(70),
            answer: EffectAnswer::Denied,
        }
    );
    assert_eq!(validate_effect_replay(EffectAnswer::Denied, None), Ok(()));
    let running = OperationState::Running;
    let stopped = apply_hierarchy_effect(
        SESSION,
        cancel(),
        facts(root(), child(), running),
        LIMITS,
        at(70),
    )
    .unwrap()
    .unwrap();
    let writes = write_hierarchy_effect(Some(stopped), at(70));
    assert_eq!(writes.message, Some(stopped.message));
    assert_eq!(writes.operation, Some(stopped.operation));
    assert_eq!(writes.grant, stopped.grant);
    assert!(writes.told_allowed);
}

#[test]
fn effects_reach_relatives_only() {
    let running = OperationState::Running;
    let stopped = apply_hierarchy_effect(
        SESSION,
        cancel(),
        facts(root(), child(), running),
        LIMITS,
        at(70),
    )
    .unwrap()
    .unwrap();
    assert_eq!(stopped.operation.state, OperationState::Cancelling);
    let plan = plan_hierarchy_effect(SESSION, cancel(), root(), Some(operation(running))).unwrap();
    assert_eq!(plan.requested.capability, StoreCapability::OperationCancel);
    assert_eq!(plan.requested.scope, ResourceScope::Operation(OPERATION));
    assert_eq!(plan.change, Some(OperationAction::RequestCancel));
    let stranger = participant(CHILD, Some(ParticipantId(12)), 2);
    let denied = [
        facts(root(), stranger, running),
        facts(root(), child(), OperationState::Cancelling),
        facts(root(), child(), OperationState::Succeeded),
        EffectFacts { authorized: false, ..facts(root(), child(), running) },
        EffectFacts {
            grant: Some(given(true, Some(at(1)))),
            ..facts(root(), child(), running)
        },
        EffectFacts { message_exists: true, ..facts(root(), child(), running) },
        EffectFacts { envelope_size: 101, ..facts(root(), child(), running) },
        EffectFacts { caller: None, ..facts(root(), child(), running) },
        EffectFacts { operation: None, ..facts(root(), child(), running) },
        EffectFacts { target: None, ..facts(root(), child(), running) },
    ];
    for facts in denied {
        assert_eq!(apply_hierarchy_effect(SESSION, cancel(), facts, LIMITS, at(70)), Ok(None));
    }
    let reminder = |command| HierarchyEffect::Send {
        message_id: MessageId(36),
        destination: CHILD,
        body: MessageBody::Control { operation_id: OPERATION, command },
        grant_id: None,
    };
    let sent = apply_hierarchy_effect(
        SESSION,
        reminder(ControlKind::Reminder),
        facts(root(), child(), running),
        LIMITS,
        at(70),
    )
    .unwrap()
    .unwrap();
    assert_eq!(sent.operation, operation(running));
    assert_eq!(
        apply_hierarchy_effect(
            SESSION,
            reminder(ControlKind::Cancel),
            facts(root(), child(), running),
            LIMITS,
            at(70)
        ),
        Ok(None)
    );
    let broken = MailboxCounter { next_sequence: 1, queued_bytes: -1, queued_messages: 0 };
    assert_eq!(
        apply_hierarchy_effect(
            SESSION,
            cancel(),
            EffectFacts { counter: Some(broken), ..facts(root(), child(), running) },
            LIMITS,
            at(70)
        ),
        Err(StoreError::Corrupt)
    );
}

#[test]
fn a_subtree_is_cancelled_whole() {
    let other = OperationSnapshot {
        operation_id: OperationId(21),
        ..operation(OperationState::Running)
    };
    let parts = vec![
        part(operation(OperationState::Queued), true, 41),
        part(operation(OperationState::Starting), false, 42),
        part(operation(OperationState::Starting), true, 43),
        part(other, true, 44),
        part(operation(OperationState::Succeeded), true, 45),
        part(operation(OperationState::Cancelling), true, 46),
    ];
    let steps = cancel_subtree(&parts, terms()).unwrap();
    assert_eq!(steps.len(), 6);
    for index in [0, 1] {
        match steps[index] {
            CancellationStep::Ended(ended) => {
                assert_eq!(ended.state, OperationState::Cancelled);
                assert_eq!(
                    ended.terminal_outcome,
                    Some(TerminalOutcome {
                        kind: OutcomeKind::Cancelled,
                        public_digest: digest(99),
                    })
                );
            }
            _ => panic!("the operation ends"),
        }
    }
    for (index, sequence, bytes) in [(2, 1, 40), (3, 2, 80)] {
        match steps[index] {
            CancellationStep::Asked { operation, notification } => {
                assert_eq!(operation.state, OperationState::Cancelling);
                assert_eq!(notification.message.mailbox_sequence, sequence);
                assert_eq!(notification.counter.queued_bytes, bytes);
            }
            _ => panic!("the driver is asked"),
        }
    }
    assert_eq!(steps[4], CancellationStep::Untouched);
    assert_eq!(steps[5], CancellationStep::Untouched);
    let twice = vec![
        part(operation(OperationState::Running), true, 43),
        part(other, true, 43),
    ];
    assert_eq!(cancel_subtree(&twice, terms()), Err(StoreError::Invalid));
    let large = SubtreeOperation {
        envelope_size: 101,
        ..part(operation(OperationState::Running), true, 43)
    };
    assert_eq!(cancel_operation(large, terms()), Err(StoreError::MailboxQuotaExceeded));
    assert_eq!(validate_subtree_root(SESSION, Some(root())), Ok(()));
    assert_eq!(validate_subtree_root(SessionId(2), Some(root())), Err(StoreError::Invalid));
    assert_eq!(validate_subtree_root(SESSION, None), Err(StoreError::Invalid));
}

#[test]
fn cancellations_are_told_as_they_stand() {
    let running = operation(OperationState::Running);
    let asked = match cancel_operation(part(running, true, 43), terms()) {
        Ok(CancellationStep::Asked { notification, .. }) => notification.message,
        _ => panic!("the driver is asked"),
    };
    assert_eq!(find_cancel_notification(&vec![asked], OPERATION), Some(asked));
    assert_eq!(find_cancel_notification(&vec![asked], OperationId(21)), None);
    let record = CancellationRecord { operation: running, notification: Some(asked) };
    let later = operation(OperationState::Cancelled);
    assert_eq!(
        refresh_cancellation(record, Some(later), Some(asked)),
        Ok(CancellationRecord { operation: later, notification: Some(asked) })
    );
    assert_eq!(refresh_cancellation(record, Some(later), None), Err(StoreError::Corrupt));
    assert_eq!(refresh_cancellation(record, None, Some(asked)), Err(StoreError::Corrupt));
}

#[test]
fn only_the_parent_learns_the_status_of_a_child() {
    let query = AuthorizedStatus {
        session_id: SESSION,
        caller_participant_id: ROOT,
        target_participant_id: CHILD,
        operation_id: Some(OPERATION),
    };
    let running = operation(OperationState::Running);
    let ask = |query, owned, caller, target, authorized, operation| {
        authorized_status(query, owned, caller, target, authorized, operation)
    };
    let told = |operation| StatusReply {
        answer: Some(StatusAnswer { participant: child(), operation }),
        recorded: true,
    };
    let denied = StatusReply { answer: None, recorded: true };
    assert_eq!(
        ask(query, true, Some(root()), Some(child()), true, Some(running)),
        told(Some(running))
    );
    let whole = AuthorizedStatus { operation_id: None, ..query };
    assert_eq!(ask(whole, true, Some(root()), Some(child()), true, None), told(None));
    assert_eq!(ask(query, true, Some(root()), Some(child()), false, Some(running)), denied);
    assert_eq!(ask(query, true, Some(child()), Some(root()), true, Some(running)), denied);
    assert_eq!(ask(query, true, Some(root()), Some(child()), true, None), denied);
    assert_eq!(
        ask(query, false, Some(root()), Some(child()), true, Some(running)),
        StatusReply { answer: None, recorded: false }
    );
    let requested = status_authority(query);
    assert_eq!(requested.capability, StoreCapability::ParticipantStatus);
    assert_eq!(requested.scope, ResourceScope::Participant(CHILD));
}
