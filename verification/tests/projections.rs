use navigator_store::approval::{
    ApprovalAction, ApprovalEffect, ApprovalEffectPhase, ApprovalGrant, ApprovalRecord,
    ApprovalRequest, ApprovalStatus,
};
use navigator_store::effect::{
    EffectClass, EffectEntry, EffectPhase, ResolutionContract, UncertaintyResolution,
};
use navigator_store::error::StoreError;
use navigator_store::ids::{
    ApprovalId, DeliveryAttemptId, Digest, FencingEpoch, GrantId, HostId, MessageId, OperationId,
    ParticipantId, RequestId, Revision, SessionId, TemplateId,
};
use navigator_store::mailbox::{
    ControlKind, Correlation, DeliveryState, Envelope, MessageBody, MessagePriority,
    MessageSnapshot,
};
use navigator_store::operation::{OperationSnapshot, OperationState, ParticipantSnapshot};
use navigator_store::payload::{
    approval_event_payload, authority_event_payload, capacity_row_payload, member_name,
    message_event_payload, operation_event_payload, participant_event_payload,
    recovery_event_payload, resolution_event_payload, session_event_payload,
    spawned_participant_payload, ApprovalState, ApprovalTexts, Member, RequestState,
    ResolutionTexts, Times,
};
use navigator_store::projection::event::{
    projection_event_targets, projection_initial_event, projection_transition_allowed,
    read_document, Field,
};
use navigator_store::projection::fold::{
    position_of, projection_gc_before, rebuild_projection, unchanged_projection, ProjectionEvent,
    ProjectionRebuild, RowSource,
};
use navigator_store::projection::page::{
    admit_page, continue_page, finish_page, first_page, projection_signature, projection_token,
    verify_projection_signature, PageCoordinates, PageRow, PageStart, PinnedGeneration,
    ProjectionTokenWire, ReadProjection,
};
use navigator_store::projection::publish::{
    publish_generation, Generation, GenerationState, ProjectionHead, KEPT_GENERATIONS,
};
use navigator_store::projection::table::Table;
use navigator_store::projection::ProjectionView;
use navigator_store::session::{SessionSnapshot, SessionStatus};
use navigator_store::time::Timestamp;

const SESSION: SessionId = SessionId(1);
const ROOT: ParticipantId = ParticipantId(10);
const CHILD: ParticipantId = ParticipantId(11);
const OPERATION: OperationId = OperationId(20);
const KEY: [u8; 32] = [7; 32];

fn at(seconds: i64) -> Timestamp {
    Timestamp { seconds, nanos: 0 }
}

fn digest(n: u128) -> Digest {
    Digest { high: n, low: n }
}

fn name(n: u128) -> String {
    format!("00000000-0000-0000-0000-{:012x}", n)
}

fn times() -> Times {
    Times { created_at: "\"then\"".to_string(), updated_at: "\"now\"".to_string() }
}

fn event(position: i64, revision: i64, event_type: &str, data: Vec<u8>) -> ProjectionEvent {
    ProjectionEvent {
        event_id: name(position as u128),
        position,
        revision,
        event_type: event_type.to_string(),
        schema_version: 1,
        data,
    }
}

fn participant(
    id: ParticipantId,
    parent: Option<ParticipantId>,
    depth: u32,
) -> ParticipantSnapshot {
    ParticipantSnapshot {
        session_id: SESSION,
        participant_id: id,
        parent_participant_id: parent,
        depth,
        template_id: TemplateId(5),
        template_compatibility: digest(5),
        revision: Revision(1),
    }
}

fn born(
    position: i64,
    id: ParticipantId,
    parent: Option<ParticipantId>,
    depth: u32,
) -> ProjectionEvent {
    let data = participant_event_payload(participant(id, parent, depth)).unwrap();
    event(position, 1, "participant.created", data)
}

fn operation(state: OperationState, revision: u64) -> OperationSnapshot {
    OperationSnapshot {
        session_id: SESSION,
        operation_id: OPERATION,
        participant_id: ROOT,
        start_request_id: RequestId(40),
        input_message_id: MessageId(30),
        waiting_on_message_id: None,
        input_digest: digest(6),
        state,
        revision: Revision(revision),
        terminal_outcome: None,
        created_at: at(50),
        updated_at: at(60),
    }
}

fn worked(position: i64, kind: &str, state: OperationState, revision: u64) -> ProjectionEvent {
    let data = operation_event_payload(operation(state, revision), &times()).unwrap();
    event(position, revision as i64, kind, data)
}

fn message() -> MessageSnapshot {
    MessageSnapshot {
        session_id: SESSION,
        message_id: MessageId(30),
        source: ROOT,
        destination: ROOT,
        mailbox_sequence: 1,
        priority: MessagePriority::Ordinary,
        correlation: Correlation { operation_id: Some(OPERATION), in_reply_to: None },
        envelope: Envelope {
            body: MessageBody::Control { operation_id: OPERATION, command: ControlKind::Reminder },
            size: 40,
        },
        attempt_count: 0,
        state: DeliveryState::Queued,
        revision: Revision(1),
        created_at: at(50),
        updated_at: at(50),
    }
}

fn history() -> Vec<ProjectionEvent> {
    vec![
        event(1, 1, "session.opened", b"not a document".to_vec()),
        born(2, ROOT, None, 1),
        born(3, CHILD, Some(ROOT), 2),
        worked(4, "operation.queued", OperationState::Queued, 1),
        event(
            5,
            1,
            "message.enqueued",
            message_event_payload(message(), &"\"ordinary\"".to_string(), &times()).unwrap(),
        ),
        worked(6, "operation.starting", OperationState::Starting, 2),
        worked(7, "operation.running", OperationState::Running, 3),
    ]
}

fn request() -> ApprovalRequest {
    ApprovalRequest {
        id: ApprovalId(60),
        session_id: SESSION,
        requester_id: CHILD,
        operation_id: OPERATION,
        source_message_id: MessageId(30),
        source_delivery_attempt_id: DeliveryAttemptId(1),
        coordinator_id: ROOT,
        capability: digest(1),
        resource: digest(2),
        summary: digest(3),
        status: ApprovalStatus::Pending,
        expires_at: at(200),
        grant_id: None,
        decided_by_consumer: false,
        created_at: at(100),
        decided_at: None,
        revision: Revision(1),
    }
}

fn grant() -> ApprovalGrant {
    ApprovalGrant {
        id: GrantId(80),
        request_id: ApprovalId(60),
        session_id: SESSION,
        subject_id: CHILD,
        operation_id: OPERATION,
        capability: digest(1),
        resource_hash: digest(2),
        max_uses: 1,
        used_count: 0,
        expires_at: at(300),
        revoked_at: None,
        created_at: at(110),
        revision: Revision(1),
    }
}

fn texts() -> ApprovalTexts {
    ApprovalTexts {
        capability: "\"write\"".to_string(),
        resource_hash: "\"hash\"".to_string(),
        summary_digest: None,
        expires_at: None,
        revoked_at: None,
        created_at: "\"then\"".to_string(),
        decided_at: None,
        finished_at: None,
    }
}

fn approved(
    position: i64,
    revision: i64,
    kind: &str,
    action: ApprovalAction,
    record: ApprovalRecord,
    state: ApprovalState,
) -> ProjectionEvent {
    let data = approval_event_payload(action, SESSION, record, state, &texts()).unwrap();
    event(position, revision, kind, data)
}

fn approval_history(used_revision: u64) -> Vec<ProjectionEvent> {
    let granted = ApprovalRequest {
        status: ApprovalStatus::Granted,
        grant_id: Some(GrantId(80)),
        revision: Revision(2),
        ..request()
    };
    let effect = ApprovalEffect {
        effect_id: RequestId(90),
        session_id: SESSION,
        grant_id: GrantId(80),
        subject_id: CHILD,
        operation_id: OPERATION,
        capability: digest(1),
        resource_hash: digest(2),
        phase: ApprovalEffectPhase::Reserved,
        created_at: at(120),
        finished_at: None,
        revision: Revision(1),
    };
    let state = |status, revision: u64, grant_revision: Option<u64>| ApprovalState {
        approval_of_grant: Some(ApprovalId(60)),
        request: Some(RequestState { status, revision }),
        grant_revision,
    };
    vec![
        approved(
            1,
            1,
            "approval.requested",
            ApprovalAction::Request,
            ApprovalRecord::Request(request()),
            state(ApprovalStatus::Pending, 1, None),
        ),
        approved(
            2,
            2,
            "approval.granted",
            ApprovalAction::Approve,
            ApprovalRecord::Request(granted),
            state(ApprovalStatus::Granted, 2, Some(1)),
        ),
        approved(
            3,
            1,
            "approval.consumed",
            ApprovalAction::Consume,
            ApprovalRecord::Effect(effect),
            state(ApprovalStatus::Consumed, 3, Some(used_revision)),
        ),
    ]
}

fn query(page_size: u16) -> ReadProjection {
    ReadProjection {
        session_id: SESSION,
        view: ProjectionView::SessionTree,
        consumer: "someone".to_string(),
        page_size,
    }
}

fn row(n: u128) -> PageRow {
    PageRow { item_key: name(n), sort_key: name(n + 100), data: vec![n as u8] }
}

fn start() -> PageStart {
    first_page("someone", &query(2), Some((4, 9))).unwrap()
}

fn coordinates() -> PageCoordinates {
    PageCoordinates {
        session_id: SESSION,
        view: ProjectionView::SessionTree,
        generation: 4,
        checkpoint: 9,
        expires_seconds: 160,
        page_size: 2,
        last_sort_key: name(102),
        last_item_key: name(2),
    }
}

#[test]
fn documents_are_read_member_by_member() {
    let data = br#"{"session_id":"abc","revision":7,"depth":-1,"classifications":[],"code":null}"#;
    let document = read_document(&data.to_vec()).unwrap();
    assert_eq!(document.text(Field::SessionId), Some(&"abc".to_string()));
    assert!(document.text_is(Field::SessionId, "abc"));
    assert!(!document.text_is(Field::SessionId, "abd"));
    assert_eq!(document.number(Field::Revision), Some(7));
    assert_eq!(document.number(Field::Depth), None);
    assert_eq!(document.text(Field::Revision), None);
    assert!(document.array(Field::Classifications));
    assert!(!document.array(Field::SessionId));
    assert!(document.present(Field::Depth));
    assert!(!document.present(Field::Code));
    assert!(!document.present(Field::Phase));
    assert!(read_document(&b"{".to_vec()).is_none());
}

#[test]
fn documents_that_are_written_are_read_back() {
    let data = operation_event_payload(operation(OperationState::Running, 3), &times()).unwrap();
    let document = read_document(&data).unwrap();
    assert_eq!(document.number(Field::SchemaVersion), Some(1));
    assert_eq!(document.text(Field::SessionId), Some(&name(1)));
    assert_eq!(document.text(Field::OperationId), Some(&name(20)));
    assert!(document.text_is(Field::State, "running"));
    assert_eq!(document.number(Field::Revision), Some(3));
    assert!(!document.present(Field::GrantId));
    let text = String::from_utf8(data).unwrap();
    assert!(text.contains("\"created_at\":\"then\""));
    assert!(text.contains("\"waiting_on_message_id\":null"));
    let broken = Times { created_at: "then".to_string(), updated_at: "\"now\"".to_string() };
    assert_eq!(
        operation_event_payload(operation(OperationState::Running, 3), &broken),
        Err(StoreError::Corrupt)
    );
    assert_eq!(member_name(Member::InReplyTo), "in_reply_to");
}

#[test]
fn every_document_has_its_members() {
    let session = SessionSnapshot {
        id: SESSION,
        consumer_key: "someone".to_string(),
        compatibility: digest(5),
        status: SessionStatus::Open,
        revision: Revision(2),
        created_at: at(1),
        updated_at: at(2),
    };
    let document = read_document(&session_event_payload(&session, &times()).unwrap()).unwrap();
    assert!(document.text_is(Field::Status, "open"));
    let data = recovery_event_payload(SESSION, RequestId(7), Revision(1), &"[1]".to_string());
    let document = read_document(&data.unwrap()).unwrap();
    assert!(document.array(Field::Classifications));
    assert_eq!(document.text(Field::RequestId), Some(&name(7)));
    let data = capacity_row_payload(SESSION, 1, 2, 3, &"{}".to_string()).unwrap();
    let text = String::from_utf8(data).unwrap();
    assert!(text.contains("\"active_work\":2"));
    assert!(text.contains("\"resources\":{}"));
    let document = read_document(&authority_event_payload(ROOT).unwrap()).unwrap();
    assert_eq!(document.text(Field::ParticipantId), Some(&name(10)));
    let effect = EffectEntry {
        request_id: RequestId(2),
        session_id: SESSION,
        participant_id: ROOT,
        operation_id: OPERATION,
        caller: HostId(100),
        action: digest(3),
        semantic_digest: digest(6),
        effect_class: EffectClass::Unknown,
        contract: ResolutionContract { identity: digest(7), allow_do_not_retry: true },
        phase: EffectPhase::Failed,
        owner_host: HostId(100),
        owner_epoch: FencingEpoch(1),
        lease_expires_at: at(110),
        terminal: None,
        revision: Revision(4),
    };
    let texts = ResolutionTexts {
        effect_semantic_digest: "\"six\"".to_string(),
        reason_digest: "\"why\"".to_string(),
        proof_kind: None,
        proof_digest: None,
        assertion_digest: "\"so\"".to_string(),
    };
    let data = resolution_event_payload(effect, UncertaintyResolution::DoNotRetry, &texts).unwrap();
    let text = String::from_utf8(data).unwrap();
    assert!(text.contains("\"resolution\":\"do_not_retry\""));
    assert!(text.contains("\"proof_kind\":null"));
}

#[test]
fn events_tell_what_they_change() {
    let targets = |revision, kind: &str, data: &Vec<u8>| {
        let document = read_document(data);
        projection_event_targets(SESSION, revision, kind, document.as_ref())
    };
    let data = operation_event_payload(operation(OperationState::Failed, 3), &times()).unwrap();
    let target = targets(3, "operation.failed", &data).ok().unwrap().unwrap();
    assert_eq!(target.view, ProjectionView::ActiveWork);
    assert_eq!(target.key, name(20));
    assert!(target.terminal);
    assert_eq!(target.failure_key, Some(format!("operation.failed:{}", name(20))));
    assert!(matches!(targets(4, "operation.failed", &data), Err(StoreError::Corrupt)));
    assert!(matches!(targets(3, "operation.running", &data), Err(StoreError::Corrupt)));
    assert!(matches!(targets(3, "tool.started", &data), Ok(None)));
    assert!(matches!(targets(3, "participant.create_root", &data), Ok(None)));
    assert!(matches!(targets(3, "message.leased", &b"{".to_vec()), Err(StoreError::Corrupt)));
    let spawned = spawned_participant_payload(participant(CHILD, Some(ROOT), 2)).unwrap();
    assert!(matches!(targets(1, "participant.created", &spawned), Err(StoreError::Corrupt)));
}

#[test]
fn transitions_follow_the_table() {
    let allowed = |view, previous, next| projection_transition_allowed(view, previous, next);
    let work = ProjectionView::ActiveWork;
    assert!(allowed(work, "operation.queued", "operation.starting"));
    assert!(allowed(work, "operation.cancelling", "operation.cancelled"));
    assert!(!allowed(work, "operation.queued", "operation.running"));
    assert!(!allowed(work, "operation.succeeded", "operation.running"));
    let delivery = ProjectionView::Delivery;
    assert!(allowed(delivery, "message.retry_scheduled", "message.leased"));
    assert!(!allowed(delivery, "message.accepted", "message.leased"));
    assert!(projection_initial_event(delivery, "message.enqueued"));
    assert!(!projection_initial_event(delivery, "message.leased"));
    assert!(projection_initial_event(ProjectionView::Failure, "operation.failed"));
}

#[test]
fn a_history_is_folded_into_read_models() {
    let rebuilt = rebuild_projection(SESSION, &history()).ok().unwrap();
    assert_eq!((rebuilt.participants, rebuilt.active_work, rebuilt.deliveries), (2, 1, 1));
    assert_eq!(rebuilt.checkpoint, 7);
    assert_eq!(
        rebuilt.rows.get(ProjectionView::ActiveWork, &name(20)),
        Some(RowSource::Event { index: 6 })
    );
    assert_eq!(
        rebuilt.rows.get(ProjectionView::SessionTree, &name(11)),
        Some(RowSource::Event { index: 2 })
    );
    assert_eq!(rebuilt.rows.count(ProjectionView::Capacity), 1);
    assert_eq!(rebuilt.rows.count(ProjectionView::Failure), 0);
    assert_eq!(rebuilt.rows.len(), 5);
    let mut done = history();
    done.push(worked(8, "operation.succeeded", OperationState::Succeeded, 4));
    let rebuilt = rebuild_projection(SESSION, &done).ok().unwrap();
    assert_eq!(rebuilt.active_work, 0);
    assert_eq!(rebuilt.checkpoint, 8);
}

#[test]
fn a_resumption_is_not_followed() {
    let waited = |kind: &str| {
        let mut events = history();
        events.push(worked(8, "operation.waiting", OperationState::Waiting, 4));
        events.push(worked(9, kind, OperationState::Running, 5));
        rebuild_projection(SESSION, &events)
    };
    assert!(waited("operation.running").is_ok());
    assert!(matches!(waited("operation.resumed"), Err(StoreError::Corrupt)));
}

#[test]
fn a_broken_history_stays_broken() {
    let corrupt = |events: Vec<ProjectionEvent>| {
        matches!(rebuild_projection(SESSION, &events), Err(StoreError::Corrupt))
    };
    let with = |change: fn(&mut Vec<ProjectionEvent>)| {
        let mut events = history();
        change(&mut events);
        events
    };
    assert!(corrupt(with(|events| events[3].position = 9)));
    assert!(corrupt(with(|events| events[3].schema_version = 2)));
    assert!(corrupt(with(|events| events[3].revision = -1)));
    assert!(corrupt(with(|events| {
        events.remove(5);
        events[5].position = 6;
    })));
    assert!(corrupt(with(|events| events[2] = born(3, CHILD, Some(ROOT), 3))));
    assert!(corrupt(with(|events| events[2] = born(3, CHILD, None, 1))));
    assert!(corrupt(with(|events| events[2] = born(3, CHILD, Some(ParticipantId(12)), 2))));
    assert!(corrupt(with(|events| {
        events.push(worked(8, "operation.succeeded", OperationState::Succeeded, 4));
        events.push(worked(9, "operation.failed", OperationState::Failed, 5));
    })));
    assert!(corrupt(with(|events| {
        events.push(worked(8, "operation.failed", OperationState::Failed, 4));
    })));
    let foreign = matches!(
        rebuild_projection(SessionId(2), &history()),
        Err(StoreError::Corrupt)
    );
    assert!(foreign);
}

#[test]
fn approvals_are_followed_to_their_use() {
    let rebuilt = rebuild_projection(SESSION, &approval_history(2)).ok().unwrap();
    assert_eq!(
        rebuilt.rows.get(ProjectionView::Approval, &name(60)),
        Some(RowSource::Event { index: 2 })
    );
    let mut withdrawn = approval_history(2);
    withdrawn[2] = approved(
        3,
        2,
        "approval.revoked",
        ApprovalAction::Revoke,
        ApprovalRecord::Grant(ApprovalGrant { revision: Revision(2), ..grant() }),
        ApprovalState {
            approval_of_grant: None,
            request: Some(RequestState { status: ApprovalStatus::Revoked, revision: 3 }),
            grant_revision: Some(2),
        },
    );
    assert!(rebuild_projection(SESSION, &withdrawn).is_ok());
    let skipped = matches!(
        rebuild_projection(SESSION, &approval_history(3)),
        Err(StoreError::Corrupt)
    );
    assert!(skipped);
    let mut unasked = approval_history(2);
    unasked.remove(0);
    unasked[0].position = 1;
    unasked[1].position = 2;
    let unasked = matches!(rebuild_projection(SESSION, &unasked), Err(StoreError::Corrupt));
    assert!(unasked);
}

#[test]
fn a_projection_that_stands_is_not_rebuilt() {
    assert_eq!(
        unchanged_projection(SESSION, Some((3, 7)), 7),
        Ok(Some(ProjectionRebuild {
            session_id: SESSION,
            generation: 3,
            checkpoint_position: Some(7),
        }))
    );
    assert_eq!(unchanged_projection(SESSION, Some((3, 7)), 8), Ok(None));
    assert_eq!(unchanged_projection(SESSION, None, 8), Ok(None));
    assert_eq!(unchanged_projection(SESSION, Some((-3, 7)), 7), Err(StoreError::Corrupt));
    assert_eq!(position_of(0), None);
    assert_eq!(projection_gc_before(100), Ok(40));
    assert_eq!(projection_gc_before(i64::MIN), Err(StoreError::Corrupt));
}

fn generation(number: u64, state: GenerationState, created_seconds: i64) -> Generation {
    Generation { generation: number, state, checkpoint: number, created_seconds }
}

#[test]
fn a_generation_is_published_alone() {
    let first = publish_generation(SESSION, &Vec::new(), 7, 100, 40).ok().unwrap();
    assert_eq!(first.head, ProjectionHead { generation: 1, checkpoint: 7 });
    assert_eq!(first.generations.len(), 1);
    assert_eq!(first.generations[0].state, GenerationState::Published);
    assert_eq!(
        first.rebuild,
        ProjectionRebuild { session_id: SESSION, generation: 1, checkpoint_position: Some(7) }
    );
    let kept = vec![
        generation(3, GenerationState::Retired, 10),
        generation(5, GenerationState::Published, 20),
        generation(4, GenerationState::Building, 15),
    ];
    let next = publish_generation(SESSION, &kept, 9, 100, 40).ok().unwrap();
    assert_eq!(next.head, ProjectionHead { generation: 6, checkpoint: 9 });
    assert_eq!(
        next.generations,
        vec![
            kept[0],
            generation(5, GenerationState::Retired, 20),
            kept[2],
            Generation {
                generation: 6,
                state: GenerationState::Published,
                checkpoint: 9,
                created_seconds: 100,
            },
        ]
    );
    let last = vec![generation(i64::MAX as u64, GenerationState::Published, 20)];
    let refused = publish_generation(SESSION, &last, 9, 100, 40);
    assert!(matches!(refused, Err(StoreError::Unavailable)));
    let refused = publish_generation(SESSION, &kept, u64::MAX, 100, 40);
    assert!(matches!(refused, Err(StoreError::Corrupt)));
}

#[test]
fn old_generations_are_dropped_beyond_the_newest() {
    let numbers = |generations: &Vec<Generation>| {
        generations.iter().map(|kept| kept.generation).collect::<Vec<u64>>()
    };
    let many: Vec<Generation> =
        (1..=10).map(|n| generation(n, GenerationState::Retired, n as i64)).collect();
    let all = publish_generation(SESSION, &many, 9, 100, 0).ok().unwrap();
    assert_eq!(all.generations.len(), 11);
    let some = publish_generation(SESSION, &many, 9, 100, 2).ok().unwrap();
    assert_eq!(numbers(&some.generations), (3..=11).collect::<Vec<u64>>());
    let newest = publish_generation(SESSION, &many, 9, 100, 40).ok().unwrap();
    assert_eq!(newest.generations.len(), KEPT_GENERATIONS);
    assert_eq!(numbers(&newest.generations), (4..=11).collect::<Vec<u64>>());
}

#[test]
fn tables_hold_one_entry_per_name() {
    let mut table: Table<usize> = Table::new();
    table.insert(ProjectionView::Delivery, "b", 1);
    table.insert(ProjectionView::Delivery, "a", 2);
    table.insert(ProjectionView::Delivery, "b", 3);
    assert_eq!(table.len(), 2);
    assert_eq!(table.get(ProjectionView::Delivery, "b"), Some(3));
    assert_eq!(table.get(ProjectionView::Failure, "b"), None);
    assert_eq!((table.entry(0).key.as_str(), table.entry(1).key.as_str()), ("b", "a"));
    table.remove(ProjectionView::Delivery, "a");
    assert_eq!(table.count(ProjectionView::Delivery), 1);
}

#[test]
fn tokens_are_signed_for_their_consumer() {
    let wire = projection_token(&KEY, "someone", coordinates());
    assert_eq!(
        wire.signature,
        [
            0x69, 0x39, 0x31, 0x15, 0x5a, 0xbe, 0xc5, 0xc0,
            0x27, 0x6d, 0x99, 0x2a, 0x14, 0xb0, 0x0c, 0xbf,
            0xdc, 0x50, 0x9a, 0xb6, 0xf8, 0x6a, 0x61, 0xab,
            0xe7, 0x4e, 0x6d, 0x75, 0x29, 0x14, 0x01, 0xa6,
        ]
    );
    assert!(verify_projection_signature(&KEY, "someone", &wire));
    assert!(!verify_projection_signature(&KEY, "someone else", &wire));
    assert!(!verify_projection_signature(&[8; 32], "someone", &wire));
    let moved = PageCoordinates { generation: 5, ..coordinates() };
    assert_ne!(wire.signature, projection_signature(&KEY, "someone", &moved));
    let forged = ProjectionTokenWire { coordinates: moved, signature: wire.signature };
    assert!(!verify_projection_signature(&KEY, "someone", &forged));
}

#[test]
fn pages_are_continued_from_their_last_row() {
    let page = finish_page(&KEY, &query(2), &start(), at(100), vec![row(1), row(2), row(3)], 12)
        .ok()
        .unwrap();
    assert_eq!(page.items, vec![row(1), row(2)]);
    assert_eq!(page.generation, 4);
    assert_eq!(page.checkpoint_position, Some(9));
    assert_eq!(page.source_head_position, Some(12));
    let wire = page.next_page_token.unwrap();
    assert_eq!(wire.coordinates, coordinates());
    let again = continue_page(&KEY, "someone", &query(2), Some(wire)).unwrap();
    assert_eq!(again.last_item_key, name(2));
    assert_eq!(again.expires_seconds, Some(160));
    let last = finish_page(&KEY, &query(2), &again, at(110), vec![row(3)], 12).ok().unwrap();
    assert_eq!(last.items, vec![row(3)]);
    assert_eq!(last.next_page_token, None);
    let negative = finish_page(&KEY, &query(2), &again, at(110), vec![row(3)], -1);
    assert!(matches!(negative, Err(StoreError::Corrupt)));
    let token = || Some(projection_token(&KEY, "someone", coordinates()));
    assert_eq!(continue_page(&KEY, "someone", &query(3), token()), Err(StoreError::Invalid));
    assert_eq!(continue_page(&KEY, "other", &query(2), token()), Err(StoreError::Invalid));
    assert_eq!(continue_page(&[8; 32], "someone", &query(2), token()), Err(StoreError::Invalid));
    assert_eq!(continue_page(&KEY, "someone", &query(2), None), Err(StoreError::Invalid));
    assert_eq!(first_page("someone", &query(2), None), Err(StoreError::Unavailable));
    assert_eq!(first_page("other", &query(2), None), Err(StoreError::Invalid));
    assert_eq!(first_page("someone", &query(2), Some((-1, 0))), Err(StoreError::Corrupt));
}

#[test]
fn the_pages_together_are_the_read_model() {
    let view: Vec<u128> = (1..=7).collect();
    let mut start = start();
    let mut seen: Vec<PageRow> = Vec::new();
    let mut pages = 0;
    loop {
        let found = view
            .iter()
            .map(|n| row(*n))
            .filter(|row| {
                (&row.sort_key, &row.item_key) > (&start.last_sort_key, &start.last_item_key)
            })
            .take(3)
            .collect();
        let page = finish_page(&KEY, &query(2), &start, at(100), found, 12).ok().unwrap();
        assert!(page.items.len() <= 2);
        assert_eq!((page.generation, page.checkpoint_position), (4, Some(9)));
        seen.extend(page.items);
        pages += 1;
        match page.next_page_token {
            Some(wire) => {
                assert!(seen.len() < view.len());
                start = continue_page(&KEY, "someone", &query(2), Some(wire)).unwrap();
            }
            None => break,
        }
    }
    assert_eq!(pages, 4);
    assert_eq!(seen, view.iter().map(|n| row(*n)).collect::<Vec<PageRow>>());
}

#[test]
fn tokens_run_out_with_the_clock_or_the_floor() {
    let continued = || PageStart { expires_seconds: Some(160), ..start() };
    let pinned = PinnedGeneration { checkpoint: 9, floor_seconds: 50, floor_nanos: 0 };
    let serve = |start: PageStart, pinned, now| admit_page(&start, pinned, at(now));
    assert_eq!(serve(continued(), Some(pinned), 159), Ok(at(159)));
    assert_eq!(serve(continued(), Some(pinned), 160), Err(StoreError::ProjectionStale));
    let late = PinnedGeneration { floor_seconds: 160, ..pinned };
    assert_eq!(serve(continued(), Some(late), 100), Err(StoreError::ProjectionStale));
    assert_eq!(serve(start(), Some(late), 100), Ok(at(160)));
    assert_eq!(serve(start(), None, 100), Err(StoreError::ProjectionStale));
    let moved = PinnedGeneration { checkpoint: 10, ..pinned };
    assert_eq!(serve(start(), Some(moved), 100), Err(StoreError::ProjectionStale));
    let broken = PinnedGeneration { floor_nanos: -1, ..pinned };
    assert_eq!(serve(start(), Some(broken), 100), Err(StoreError::Corrupt));
    let endless = PageStart { generation: u64::MAX, ..start() };
    assert_eq!(serve(endless, Some(pinned), 100), Err(StoreError::Invalid));
}
