use navigator_store::approval::{
    approval_action_name, approval_decide_terminal, approval_effect_phase, approval_event_members,
    approval_event_name, approval_insert_decision_relay, approval_operation_live, approval_replay,
    approval_status_name, approve_request, consume_approval_grant, finish_approval_effect,
    list_reserved_approval_effects, request_approval, revoke_approval_grant, ApprovalAction,
    ApprovalEffect, ApprovalEffectPhase, ApprovalFacts, ApprovalGrant, ApprovalRecord,
    ApprovalRefusal, ApprovalRequest, ApprovalStatus, ApproveFacts, ApproveRequest, CausalMessage,
    ConsumeApprovalGrant, ConsumeFacts, Ending, EndingFacts, FinishedPhase, RecordedApproval, RelayFacts,
    RequestApproval,
};
use navigator_store::error::StoreError;
use navigator_store::ids::{
    encode_digest, ApprovalId, DeliveryAttemptId, Digest, GrantId, HostId, MessageId, OperationId, ParticipantId,
    RequestId, Revision, SessionId, TemplateId,
};
use navigator_store::ledger::RequestContext;
use navigator_store::mailbox::{
    Correlation, DeliveryState, Envelope, MessageBody, MessagePriority, MessageSnapshot,
    StoreLimits,
};
use navigator_store::operation::{OperationSnapshot, OperationState, ParticipantSnapshot};
use navigator_store::time::Timestamp;

const SESSION: SessionId = SessionId(1);
const ROOT: ParticipantId = ParticipantId(10);
const CHILD: ParticipantId = ParticipantId(11);
const OPERATION: OperationId = OperationId(20);
const INPUT: MessageId = MessageId(30);
const LIMITS: StoreLimits = StoreLimits {
    max_participant_depth: 3,
    max_direct_children: 2,
    max_session_participants: 5,
    mailbox_queued_bytes: 100,
    mailbox_queued_messages: 2,
    mailbox_reserved_outcome_bytes: 50,
    mailbox_reserved_outcomes: 1,
    max_delivery_attempts: 3,
    max_lease_millis: 300_000,
};

fn at(seconds: i64) -> Timestamp {
    Timestamp { seconds, nanos: 0 }
}

fn digest(n: u128) -> Digest {
    Digest { high: n, low: n }
}

fn early(error: StoreError) -> ApprovalRefusal {
    ApprovalRefusal { error, keeps_time_floor: true }
}

fn late(error: StoreError) -> ApprovalRefusal {
    ApprovalRefusal { error, keeps_time_floor: false }
}

fn child() -> ParticipantSnapshot {
    ParticipantSnapshot {
        session_id: SESSION,
        participant_id: CHILD,
        parent_participant_id: Some(ROOT),
        depth: 2,
        template_id: TemplateId(5),
        template_compatibility: digest(5),
        revision: Revision(1),
    }
}

fn operation(state: OperationState) -> OperationSnapshot {
    OperationSnapshot {
        session_id: SESSION,
        operation_id: OPERATION,
        participant_id: CHILD,
        start_request_id: RequestId(40),
        input_message_id: INPUT,
        waiting_on_message_id: None,
        input_digest: digest(6),
        state,
        revision: Revision(3),
        terminal_outcome: None,
        created_at: at(50),
        updated_at: at(60),
    }
}

fn live() -> Option<OperationSnapshot> {
    Some(operation(OperationState::Running))
}

fn input() -> MessageSnapshot {
    MessageSnapshot {
        session_id: SESSION,
        message_id: INPUT,
        source: ROOT,
        destination: CHILD,
        mailbox_sequence: 1,
        priority: MessagePriority::Ordinary,
        correlation: Correlation { operation_id: Some(OPERATION), in_reply_to: None },
        envelope: Envelope {
            body: MessageBody::OperationInput {
                operation_id: OPERATION,
                input_digest: digest(6),
            },
            size: 40,
        },
        attempt_count: 1,
        state: DeliveryState::Accepted {
            attempt_id: DeliveryAttemptId(1),
            proof_digest: digest(7),
            accepted_at: at(55),
        },
        revision: Revision(4),
        created_at: at(50),
        updated_at: at(55),
    }
}

fn wish() -> RequestApproval {
    RequestApproval {
        approval_id: ApprovalId(60),
        session_id: SESSION,
        requester_id: CHILD,
        operation_id: OPERATION,
        source_message_id: INPUT,
        source_delivery_attempt_id: DeliveryAttemptId(1),
        capability: digest(1),
        resource: digest(2),
        summary: digest(3),
        expires_at: at(200),
    }
}

fn wish_facts() -> ApprovalFacts {
    ApprovalFacts {
        exists: false,
        requester: Some(child()),
        operation: live(),
        causal: CausalMessage::Found(input()),
        well_formed: true,
    }
}

fn pending() -> ApprovalRequest {
    request_approval(wish(), wish_facts(), at(100)).unwrap()
}

fn relay(size: u64) -> RelayFacts {
    RelayFacts { message_id: MessageId(70), counter: None, envelope_size: size }
}

fn approve_facts(request: Option<ApprovalRequest>) -> ApproveFacts {
    ApproveFacts {
        request,
        mismatch: None,
        operation: live(),
        grant_exists: false,
        well_formed: true,
        defect: None,
        relay: relay(40),
    }
}

fn leave() -> ApproveRequest {
    ApproveRequest { grant_id: GrantId(80), max_uses: 2, grant_expires_at: at(300) }
}

fn granted() -> (ApprovalRequest, ApprovalGrant) {
    let plan = approve_request(leave(), approve_facts(Some(pending())), LIMITS, at(110)).unwrap();
    (plan.request, plan.grant)
}

fn ending_facts(request: Option<ApprovalRequest>) -> EndingFacts {
    EndingFacts { request, operation: live(), well_formed: true, relay: relay(40) }
}

fn consume() -> ConsumeApprovalGrant {
    ConsumeApprovalGrant {
        request_id: RequestId(90),
        session_id: SESSION,
        effect_id: RequestId(91),
        subject_id: CHILD,
        operation_id: OPERATION,
        capability: digest(1),
        resource_hash: digest(2),
    }
}

fn consume_facts(next: ApprovalStatus) -> ConsumeFacts {
    let (request, grant) = granted();
    ConsumeFacts {
        grant: Some(grant),
        request: Some(request),
        next: Ok(next),
        operation: live(),
        effect_taken: false,
        well_formed: true,
        defect: None,
    }
}

#[test]
fn approvals_are_named() {
    assert_eq!(approval_status_name(ApprovalStatus::Consumed), "consumed");
    assert_eq!(approval_effect_phase(ApprovalEffectPhase::Uncertain), "uncertain");
    assert_eq!(approval_event_name(ApprovalAction::Deny), "approval.denied");
    assert_ne!(
        approval_action_name(ApprovalAction::Approve),
        approval_action_name(ApprovalAction::Consume)
    );
}

#[test]
fn recorded_approvals_are_recognised() {
    let context = RequestContext { request_id: RequestId(1), caller: HostId(100) };
    let row = || RecordedApproval {
        caller: "00000000-0000-0000-0000-000000000064".to_string(),
        action: "approval.approve".to_string(),
        digest: encode_digest(digest(1)),
    };
    let replay = |action, n, recorded, taken| {
        approval_replay(context, action, digest(n), recorded, taken)
    };
    let conflict = || Err(StoreError::RequestConflict { request_id: RequestId(1) });
    assert_eq!(replay(ApprovalAction::Approve, 1, Some(row()), false), Ok(true));
    assert_eq!(replay(ApprovalAction::Approve, 1, None, false), Ok(false));
    assert_eq!(replay(ApprovalAction::Deny, 1, Some(row()), false), conflict());
    assert_eq!(replay(ApprovalAction::Approve, 2, Some(row()), false), conflict());
    assert_eq!(replay(ApprovalAction::Approve, 1, None, true), conflict());
    let stranger = RecordedApproval { caller: "someone".to_string(), ..row() };
    assert_eq!(replay(ApprovalAction::Approve, 1, Some(stranger), false), conflict());
    let short = RecordedApproval { digest: vec![1; 16], ..row() };
    assert_eq!(replay(ApprovalAction::Approve, 1, Some(short), false), conflict());
}

#[test]
fn a_request_comes_of_the_accepted_input() {
    let request = pending();
    assert_eq!(request.status, ApprovalStatus::Pending);
    assert_eq!(request.coordinator_id, ROOT);
    assert_eq!(request.created_at, at(100));
    assert_eq!(request.revision, Revision(1));
    let refused = Err(early(StoreError::Invalid));
    for facts in [
        ApprovalFacts { exists: true, ..wish_facts() },
        ApprovalFacts { requester: None, ..wish_facts() },
        ApprovalFacts { operation: Some(operation(OperationState::Queued)), ..wish_facts() },
        ApprovalFacts {
            causal: CausalMessage::Found(MessageSnapshot {
                state: DeliveryState::Queued,
                ..input()
            }),
            ..wish_facts()
        },
        ApprovalFacts {
            causal: CausalMessage::Found(MessageSnapshot { source: CHILD, ..input() }),
            ..wish_facts()
        },
    ] {
        assert_eq!(request_approval(wish(), facts, at(100)), refused);
    }
    let missing = ApprovalFacts { causal: CausalMessage::Missing, ..wish_facts() };
    assert_eq!(request_approval(wish(), missing, at(100)), Err(late(StoreError::Invalid)));
    let unreadable = ApprovalFacts { causal: CausalMessage::Unreadable, ..wish_facts() };
    assert_eq!(request_approval(wish(), unreadable, at(100)), Err(early(StoreError::Corrupt)));
    assert_eq!(
        request_approval(wish(), wish_facts(), at(200)),
        Err(early(StoreError::Invalid))
    );
    let other = RequestApproval { source_delivery_attempt_id: DeliveryAttemptId(2), ..wish() };
    assert_eq!(
        request_approval(other, wish_facts(), at(100)),
        Err(early(StoreError::Invalid))
    );
    assert!(approval_operation_live(live(), SESSION, CHILD, OPERATION));
    assert!(!approval_operation_live(live(), SESSION, ROOT, OPERATION));
}

#[test]
fn leave_covers_exactly_what_was_asked_for() {
    let plan = approve_request(leave(), approve_facts(Some(pending())), LIMITS, at(110)).unwrap();
    assert_eq!(plan.request.status, ApprovalStatus::Granted);
    assert_eq!(plan.request.grant_id, Some(GrantId(80)));
    assert_eq!(plan.request.decided_at, Some(at(110)));
    assert_eq!(plan.grant.subject_id, CHILD);
    assert_eq!(plan.grant.capability, digest(1));
    assert_eq!(plan.grant.resource_hash, digest(2));
    assert_eq!((plan.grant.max_uses, plan.grant.used_count), (2, 0));
    assert_eq!(plan.relay.message.source, ROOT);
    assert_eq!(plan.relay.message.destination, CHILD);
    assert_eq!(plan.relay.message.correlation.in_reply_to, Some(INPUT));
    assert_eq!(plan.relay.message.priority, MessagePriority::Control);
    assert_eq!(
        approve_request(leave(), approve_facts(None), LIMITS, at(110)),
        Err(early(StoreError::Invalid))
    );
    let mismatched =
        ApproveFacts { mismatch: Some(StoreError::Corrupt), ..approve_facts(Some(pending())) };
    assert_eq!(
        approve_request(leave(), mismatched, LIMITS, at(110)),
        Err(early(StoreError::Corrupt))
    );
    let taken = ApproveFacts { grant_exists: true, ..approve_facts(Some(pending())) };
    assert_eq!(
        approve_request(leave(), taken, LIMITS, at(110)),
        Err(early(StoreError::Invalid))
    );
    let crowded = ApproveFacts { relay: relay(101), ..approve_facts(Some(pending())) };
    assert_eq!(
        approve_request(leave(), crowded, LIMITS, at(110)),
        Err(late(StoreError::MailboxQuotaExceeded))
    );
    assert_eq!(
        approval_insert_decision_relay(pending(), relay(40), LIMITS, at(110)),
        Err(StoreError::Invalid)
    );
}

#[test]
fn a_request_is_denied_in_time_or_expires_after() {
    let decide = |ending, request, now| {
        approval_decide_terminal(SESSION, Revision(1), ending, ending_facts(request), LIMITS, now)
    };
    let denied = decide(Ending::Denied, Some(pending()), at(199)).unwrap();
    assert_eq!(denied.request.status, ApprovalStatus::Denied);
    assert!(denied.relay.is_some());
    let expired = decide(Ending::Expired, Some(pending()), at(200)).unwrap();
    assert_eq!(expired.request.status, ApprovalStatus::Expired);
    assert_eq!(expired.request.decided_at, None);
    assert_eq!(expired.relay, None);
    for (ending, request, now) in [
        (Ending::Denied, Some(pending()), at(200)),
        (Ending::Expired, Some(pending()), at(199)),
        (Ending::Denied, None, at(150)),
        (Ending::Denied, Some(denied.request), at(150)),
        (Ending::Expired, Some(expired.request), at(250)),
    ] {
        assert_eq!(decide(ending, request, now), Err(early(StoreError::Invalid)));
    }
}

#[test]
fn records_that_are_not_well_formed_are_refused_late() {
    assert_eq!(
        request_approval(wish(), ApprovalFacts { well_formed: false, ..wish_facts() }, at(100)),
        Err(late(StoreError::Invalid))
    );
    let spoilt = ApproveFacts { well_formed: false, ..approve_facts(Some(pending())) };
    assert_eq!(
        approve_request(leave(), spoilt, LIMITS, at(110)),
        Err(late(StoreError::Invalid))
    );
    let apart =
        ApproveFacts { defect: Some(StoreError::Corrupt), ..approve_facts(Some(pending())) };
    assert_eq!(
        approve_request(leave(), apart, LIMITS, at(110)),
        Err(late(StoreError::Corrupt))
    );
    let facts = EndingFacts { well_formed: false, ..ending_facts(Some(pending())) };
    assert_eq!(
        approval_decide_terminal(SESSION, Revision(1), Ending::Denied, facts, LIMITS, at(150)),
        Err(late(StoreError::Invalid))
    );
    let unusable = ConsumeFacts { well_formed: false, ..consume_facts(ApprovalStatus::Granted) };
    assert_eq!(
        consume_approval_grant(consume(), unusable, at(120)),
        Err(late(StoreError::Invalid))
    );
    let apart = ConsumeFacts {
        defect: Some(StoreError::Corrupt),
        ..consume_facts(ApprovalStatus::Granted)
    };
    assert_eq!(
        consume_approval_grant(consume(), apart, at(120)),
        Err(late(StoreError::Corrupt))
    );
}

#[test]
fn leave_is_used_finished_and_withdrawn() {
    let once = consume_approval_grant(
        consume(),
        consume_facts(ApprovalStatus::Granted),
        at(120),
    )
    .unwrap();
    assert_eq!(once.grant.used_count, 1);
    assert_eq!(once.request, None);
    assert_eq!(once.effect.phase, ApprovalEffectPhase::Reserved);
    assert_eq!(once.effect.grant_id, GrantId(80));
    let last = consume_approval_grant(
        consume(),
        consume_facts(ApprovalStatus::Consumed),
        at(120),
    )
    .unwrap();
    assert_eq!(last.request.unwrap().status, ApprovalStatus::Consumed);
    let same = ConsumeApprovalGrant { effect_id: RequestId(90), ..consume() };
    assert_eq!(
        consume_approval_grant(same, consume_facts(ApprovalStatus::Granted), at(120)),
        Err(early(StoreError::RequestConflict { request_id: RequestId(90) }))
    );
    let taken =
        ConsumeFacts { effect_taken: true, ..consume_facts(ApprovalStatus::Granted) };
    assert_eq!(
        consume_approval_grant(consume(), taken, at(120)),
        Err(early(StoreError::RequestConflict { request_id: RequestId(91) }))
    );
    let refused = ConsumeFacts {
        next: Err(StoreError::Invalid),
        ..consume_facts(ApprovalStatus::Granted)
    };
    assert_eq!(
        consume_approval_grant(consume(), refused, at(120)),
        Err(early(StoreError::Invalid))
    );
    let mut worn = consume_facts(ApprovalStatus::Granted);
    worn.grant = worn.grant.map(|grant| ApprovalGrant { used_count: u32::MAX, ..grant });
    assert_eq!(
        consume_approval_grant(consume(), worn, at(120)),
        Err(late(StoreError::Invalid))
    );
    let done =
        finish_approval_effect(Some(once.effect), None, FinishedPhase::Failed, true, at(130))
            .unwrap();
    assert_eq!(done.phase, ApprovalEffectPhase::Failed);
    assert_eq!(done.finished_at, Some(at(130)));
    assert_eq!(
        finish_approval_effect(None, None, FinishedPhase::Failed, true, at(130)),
        Err(early(StoreError::Invalid))
    );
    assert_eq!(
        finish_approval_effect(Some(once.effect), None, FinishedPhase::Failed, false, at(130)),
        Err(late(StoreError::Invalid))
    );
    let (request, grant) = granted();
    let withdrawn = revoke_approval_grant(Some(grant), Some(request), None, at(140)).unwrap();
    assert_eq!(withdrawn.grant.revoked_at, Some(at(140)));
    assert_eq!(withdrawn.request.status, ApprovalStatus::Revoked);
    assert_eq!(
        revoke_approval_grant(Some(grant), None, None, at(140)),
        Err(early(StoreError::Invalid))
    );
}

#[test]
fn reserved_uses_are_taken_up_again() {
    let used = consume_approval_grant(
        consume(),
        consume_facts(ApprovalStatus::Granted),
        at(120),
    )
    .unwrap()
    .effect;
    assert_eq!(list_reserved_approval_effects(&vec![used; 128], SESSION), Ok(()));
    assert_eq!(
        list_reserved_approval_effects(&vec![used; 129], SESSION),
        Err(StoreError::Unavailable)
    );
    let done = ApprovalEffect { phase: ApprovalEffectPhase::Succeeded, ..used };
    assert_eq!(
        list_reserved_approval_effects(&vec![used, done], SESSION),
        Err(StoreError::Corrupt)
    );
    let members = approval_event_members(ApprovalRecord::Effect(used), Some(ApprovalId(60)));
    assert_eq!(members.approval_id, Some(ApprovalId(60)));
    assert_eq!(members.grant_id, Some(GrantId(80)));
    assert_eq!(members.effect_id, Some(RequestId(91)));
    assert_eq!(members.effect_revision, Some(Revision(1)));
    let members = approval_event_members(ApprovalRecord::Request(pending()), None);
    assert_eq!(members.approval_id, Some(ApprovalId(60)));
    assert_eq!(members.effect_id, None);
}
