use navigator_store::artifact::{
    artifact_locator, artifact_state_name, authorize_physical_erasure, check_retention_limit,
    decode_artifact, load_artifact, logically_delete_artifact, parse_artifact_state,
    publish_artifact, transition_erased, ArtifactColumns, ArtifactSnapshot, ArtifactState,
    PublishArtifact, PublishFacts, ResourceFacts,
};
use navigator_store::capacity::{CapacityLimit, StoredReservation};
use navigator_store::database::{
    map_database_error, map_sqlx, validate_compatibility_manifest, DatabaseFault, ManifestRow,
};
use navigator_store::effect::{EffectClass, EffectPhase};
use navigator_store::error::{CapacityReason, CapacityResource, StoreError};
use navigator_store::ids::{
    encode_digest, ArtifactId, Digest, FencingEpoch, HostId, MessageId, OperationId, ParticipantId, RequestId,
    Revision, SessionId, TemplateId,
};
use navigator_store::journal::{append_event, decode_event, EventNumbers, EventPlan, JournalFacts};
use navigator_store::launch::LaunchState;
use navigator_store::mailbox::{
    ControlKind, Correlation, DeliveryReason, DeliveryState, Envelope, MessageBody,
    MessagePriority, MessageSnapshot,
};
use navigator_store::operation::{OperationSnapshot, OperationState, ParticipantSnapshot};
use navigator_store::recovery::{
    check_inventory_size, recovery_effect_state, recovery_launch_state, recovery_message_state,
    recovery_operation_state, recovery_replay, unsettled_messages,
    validate_recovery_classifications, InventorySize, RecordedRecovery, RecoveredEntity,
    RecoveryClassification, RecoveryRequest, RecoveryState,
};
use navigator_store::time::Timestamp;
use uuid::Uuid;

const SESSION: SessionId = SessionId(1);
const CREATOR: ParticipantId = ParticipantId(10);
const OPERATION: OperationId = OperationId(20);
const ARTIFACT: ArtifactId = ArtifactId(30);
const LOCATOR: &str =
    "00000000-0000-0000-0000-000000000001/00000000-0000-0000-0000-00000000001e.blob";

fn at(seconds: i64) -> Timestamp {
    Timestamp { seconds, nanos: 0 }
}

fn digest(n: u128) -> Digest {
    Digest { high: n, low: n }
}

fn creator() -> ParticipantSnapshot {
    ParticipantSnapshot {
        session_id: SESSION,
        participant_id: CREATOR,
        parent_participant_id: None,
        depth: 1,
        template_id: TemplateId(5),
        template_compatibility: digest(5),
        revision: Revision(1),
    }
}

fn operation(state: OperationState) -> OperationSnapshot {
    OperationSnapshot {
        session_id: SESSION,
        operation_id: OPERATION,
        participant_id: CREATOR,
        start_request_id: RequestId(40),
        input_message_id: MessageId(31),
        waiting_on_message_id: None,
        input_digest: digest(6),
        state,
        revision: Revision(3),
        terminal_outcome: None,
        created_at: at(50),
        updated_at: at(60),
    }
}

fn message(state: DeliveryState) -> MessageSnapshot {
    MessageSnapshot {
        session_id: SESSION,
        message_id: MessageId(31),
        source: CREATOR,
        destination: CREATOR,
        mailbox_sequence: 1,
        priority: MessagePriority::Ordinary,
        correlation: Correlation { operation_id: Some(OPERATION), in_reply_to: None },
        envelope: Envelope {
            body: MessageBody::Control { operation_id: OPERATION, command: ControlKind::Reminder },
            size: 40,
        },
        attempt_count: 0,
        state,
        revision: Revision(1),
        created_at: at(50),
        updated_at: at(50),
    }
}

fn publish(size: u64) -> PublishArtifact {
    PublishArtifact {
        session_id: SESSION,
        artifact_id: ARTIFACT,
        creator_participant_id: CREATOR,
        creator_operation_id: OPERATION,
        media_type: digest(1),
        size,
        digest: digest(2),
        retention_until: at(500),
        artifact_reservation_id: RequestId(41),
        byte_reservation_id: if size == 0 { None } else { Some(RequestId(42)) },
    }
}

fn resource(resource: CapacityResource, amount: i64, derived: u64, limit: u64) -> ResourceFacts {
    ResourceFacts {
        stored: Some(StoredReservation {
            session_id: SESSION,
            campaign_id: CREATOR,
            resource,
            amount,
            released: false,
        }),
        session_reserved: Some(amount + 2),
        global_reserved: Some(amount + 3),
        derived_session: derived,
        derived_global: derived,
        limit: CapacityLimit { per_session: limit, global: limit },
    }
}

fn publish_facts(size: i64) -> PublishFacts {
    PublishFacts {
        creator: Some(creator()),
        operation: Some(operation(OperationState::Running)),
        structurally_valid: true,
        artifacts: resource(CapacityResource::Artifacts, 1, 0, 100),
        bytes: resource(CapacityResource::ArtifactBytes, size, 0, 1_000),
        max_bytes: 500,
    }
}

fn artifact(state: ArtifactState) -> ArtifactSnapshot {
    ArtifactSnapshot {
        artifact_id: ARTIFACT,
        session_id: SESSION,
        creator_participant_id: CREATOR,
        creator_operation_id: OPERATION,
        media_type: digest(1),
        size: 40,
        digest: digest(2),
        state,
        revision: Revision(1),
        retention_until: at(500),
        created_at: at(100),
        deleted_at: None,
    }
}

#[test]
fn artifacts_are_found_under_their_locator() {
    assert_eq!(artifact_locator(SESSION, ARTIFACT), LOCATOR);
    for state in
        [ArtifactState::Available, ArtifactState::LogicallyDeleted, ArtifactState::PhysicallyErased]
    {
        assert_eq!(parse_artifact_state(artifact_state_name(state)), Ok(state));
    }
    assert_eq!(parse_artifact_state("erased"), Err(StoreError::Corrupt));
}

#[test]
fn publishing_takes_up_what_was_reserved() {
    let plan =
        publish_artifact(publish(40), &LOCATOR.to_string(), publish_facts(40), at(100)).unwrap();
    assert_eq!(plan.artifact, artifact(ArtifactState::Available));
    assert_eq!(plan.artifacts_reserved, (2, 3));
    assert_eq!(plan.bytes_reserved, Some((2, 3)));
    let empty =
        publish_artifact(publish(0), &LOCATOR.to_string(), publish_facts(0), at(100)).unwrap();
    assert_eq!(empty.bytes_reserved, None);
    let refused = |command, facts| {
        publish_artifact(command, &LOCATOR.to_string(), facts, at(100))
    };
    assert_eq!(
        refused(publish(40), PublishFacts { creator: None, ..publish_facts(40) }),
        Err(StoreError::ParticipantNotFound { participant_id: CREATOR })
    );
    assert_eq!(
        refused(publish(40), PublishFacts { operation: None, ..publish_facts(40) }),
        Err(StoreError::OperationNotFound { operation_id: OPERATION })
    );
    assert_eq!(refused(publish(501), publish_facts(501)), Err(StoreError::Invalid));
    assert_eq!(refused(publish(40), publish_facts(39)), Err(StoreError::Invalid));
    assert_eq!(
        refused(
            PublishArtifact { byte_reservation_id: None, ..publish(40) },
            publish_facts(40)
        ),
        Err(StoreError::Invalid)
    );
    assert_eq!(
        publish_artifact(publish(40), &"elsewhere".to_string(), publish_facts(40), at(100)),
        Err(StoreError::Invalid)
    );
    let full = PublishFacts {
        artifacts: resource(CapacityResource::Artifacts, 1, 98, 100),
        ..publish_facts(40)
    };
    assert_eq!(
        refused(publish(40), full),
        Err(StoreError::CapacityExceeded {
            reason: CapacityReason::SessionLimit { resource: CapacityResource::Artifacts },
        })
    );
}

#[test]
fn artifacts_are_deleted_kept_and_then_erased() {
    let here = Some(artifact(ArtifactState::Available));
    assert_eq!(load_artifact(SESSION, ARTIFACT, here), Ok(artifact(ArtifactState::Available)));
    let missing = || Err(StoreError::ArtifactNotFound { artifact_id: ARTIFACT });
    assert_eq!(load_artifact(SessionId(2), ARTIFACT, here), missing());
    let deleted = logically_delete_artifact(SESSION, ARTIFACT, here, at(200)).unwrap();
    assert_eq!(deleted.state, ArtifactState::LogicallyDeleted);
    assert_eq!(deleted.deleted_at, Some(at(200)));
    assert_eq!(load_artifact(SESSION, ARTIFACT, Some(deleted)), missing());
    assert_eq!(
        logically_delete_artifact(SESSION, ARTIFACT, Some(deleted), at(201)),
        Err(StoreError::Invalid)
    );
    assert_eq!(logically_delete_artifact(SESSION, ARTIFACT, None, at(201)), missing());
    assert_eq!(
        authorize_physical_erasure(SESSION, ARTIFACT, None, Some(deleted), at(499)),
        Err(StoreError::Invalid)
    );
    assert_eq!(
        authorize_physical_erasure(SESSION, ARTIFACT, None, Some(deleted), at(500)),
        Ok(deleted)
    );
    assert_eq!(
        transition_erased(SESSION, ARTIFACT, Some(deleted), at(499)),
        Err(StoreError::Invalid)
    );
    let erased = transition_erased(SESSION, ARTIFACT, Some(deleted), at(500)).unwrap();
    assert_eq!(erased.state, ArtifactState::PhysicallyErased);
    assert_eq!(erased.revision, Revision(3));
    assert_eq!(
        authorize_physical_erasure(SESSION, ARTIFACT, Some(erased), None, at(1)),
        Ok(erased)
    );
    assert_eq!(
        authorize_physical_erasure(SESSION, ARTIFACT, Some(deleted), None, at(1)),
        Err(StoreError::Corrupt)
    );
    assert_eq!(check_retention_limit(1024), Ok(()));
    assert_eq!(check_retention_limit(1025), Err(StoreError::Invalid));
    assert_eq!(check_retention_limit(0), Err(StoreError::Invalid));
}

#[test]
fn artifacts_are_read_from_their_columns() {
    let columns = ArtifactColumns {
        artifact_id: ARTIFACT,
        session_id: SESSION,
        creator_participant_id: Some(CREATOR),
        creator_operation_id: Some(OPERATION),
        media_type: digest(1),
        size: 40,
        digest: digest(2),
        revision: 1,
        retention: (500, 0),
        created: (100, 0),
        deleted: (None, None),
    };
    assert_eq!(decode_artifact(columns, "available", true), Ok(artifact(ArtifactState::Available)));
    assert_eq!(decode_artifact(columns, "gone", true), Err(StoreError::Corrupt));
    assert_eq!(decode_artifact(columns, "available", false), Err(StoreError::Corrupt));
    for wrong in [
        ArtifactColumns { size: -1, ..columns },
        ArtifactColumns { revision: 0, ..columns },
        ArtifactColumns { created: (100, 1_000_000_000), ..columns },
        ArtifactColumns { deleted: (Some(1), None), ..columns },
        ArtifactColumns { creator_operation_id: None, ..columns },
    ] {
        assert_eq!(decode_artifact(wrong, "available", true), Err(StoreError::Corrupt));
    }
}

#[test]
fn everything_is_classified_for_recovery() {
    assert_eq!(
        recovery_launch_state(LaunchState::CleanupRequired),
        RecoveryState::InstanceCleanupRequired
    );
    assert_eq!(
        recovery_operation_state(OperationState::Uncertain),
        RecoveryState::OperationTerminal
    );
    assert_eq!(
        recovery_operation_state(OperationState::Waiting),
        RecoveryState::OperationWaiting
    );
    let retry = DeliveryState::RetryScheduled { not_before: at(100) };
    assert_eq!(recovery_message_state(retry, at(99)), RecoveryState::MessageRetryDeferred);
    assert_eq!(recovery_message_state(retry, at(100)), RecoveryState::MessageRetryScheduled);
    for (class, expected) in [
        (EffectClass::ReadOnly, RecoveryState::EffectStartedRetryable),
        (EffectClass::Idempotent, RecoveryState::EffectStartedRetryable),
        (EffectClass::Transactional, RecoveryState::EffectStartedUnsafe),
        (EffectClass::NonIdempotent, RecoveryState::EffectStartedUnsafe),
        (EffectClass::Unknown, RecoveryState::EffectStartedUnsafe),
    ] {
        assert_eq!(recovery_effect_state(EffectPhase::Started, class), expected);
        assert_eq!(
            recovery_effect_state(EffectPhase::RetryAuthorized, class),
            RecoveryState::EffectStartedRetryable
        );
    }
    let row = |entity, state| RecoveryClassification { entity, state };
    let right = vec![
        row(RecoveredEntity::Session(SESSION), RecoveryState::SessionOpen),
        row(
            RecoveredEntity::Operation(Some(operation(OperationState::Queued))),
            RecoveryState::OperationQueued,
        ),
        row(RecoveredEntity::Message(Some(message(retry))), RecoveryState::MessageRetryScheduled),
    ];
    assert_eq!(validate_recovery_classifications(&right, SESSION, at(100)), Ok(()));
    assert_eq!(
        validate_recovery_classifications(&right, SESSION, at(99)),
        Err(StoreError::Invalid)
    );
    let missing = vec![row(RecoveredEntity::Participant(None), RecoveryState::ParticipantRegistered)];
    assert_eq!(
        validate_recovery_classifications(&missing, SESSION, at(100)),
        Err(StoreError::Invalid)
    );
}

#[test]
fn recovery_is_recorded_once() {
    let request = RecoveryRequest {
        request_id: RequestId(1),
        session_id: SESSION,
        caller: HostId(100),
        epoch: FencingEpoch(3),
        digest: digest(1),
    };
    let row = || RecordedRecovery {
        session_id: Uuid::from_u128(SESSION.0).to_string(),
        caller: Uuid::from_u128(100).to_string(),
        owner_epoch: 3,
        digest: encode_digest(digest(1)),
    };
    assert_eq!(recovery_replay(request, None), Ok(false));
    assert_eq!(recovery_replay(request, Some(row())), Ok(true));
    for other in [
        RecordedRecovery { digest: encode_digest(digest(2)), ..row() },
        RecordedRecovery { digest: vec![1; 31], ..row() },
        RecordedRecovery { owner_epoch: 4, ..row() },
        RecordedRecovery { caller: Uuid::from_u128(101).to_string(), ..row() },
        RecordedRecovery { session_id: "elsewhere".to_string(), ..row() },
    ] {
        assert_eq!(
            recovery_replay(request, Some(other)),
            Err(StoreError::RequestConflict { request_id: RequestId(1) })
        );
    }
    assert_eq!(
        recovery_replay(RecoveryRequest { epoch: FencingEpoch(u64::MAX), ..request }, Some(row())),
        Err(StoreError::Corrupt)
    );
    let size = InventorySize { launches: 1, participants: 2, operations: 3, messages: 4, effects: 5 };
    assert_eq!(check_inventory_size(size, 16), Ok(()));
    assert_eq!(check_inventory_size(size, 15), Err(StoreError::Invalid));
    let open = message(DeliveryState::Queued);
    let given_up = message(DeliveryState::DeadLetter { reason: DeliveryReason::OperationEnded });
    assert_eq!(unsettled_messages(&vec![given_up, open, given_up]), vec![open]);
}

#[test]
fn events_follow_each_other() {
    let facts = JournalFacts {
        limits: Some((10, 20)),
        session_events: 9,
        global_events: 19,
        previous: Some(at(100)),
        last_position: 9,
        identity: Digest { high: 7, low: 0 },
    };
    assert_eq!(
        append_event(facts, at(90)),
        Ok(EventPlan {
            event_id: 0x0000_0000_0000_4000_8000_0000_0000_0007,
            position: 10,
            occurred_at: at(100),
        })
    );
    assert_eq!(append_event(facts, at(110)).unwrap().occurred_at, at(110));
    assert_eq!(
        append_event(JournalFacts { session_events: 10, ..facts }, at(110)),
        Err(StoreError::CapacityExceeded {
            reason: CapacityReason::SessionLimit { resource: CapacityResource::RetainedEvents },
        })
    );
    assert_eq!(
        append_event(JournalFacts { global_events: 20, ..facts }, at(110)),
        Err(StoreError::CapacityExceeded {
            reason: CapacityReason::GlobalLimit { resource: CapacityResource::RetainedEvents },
        })
    );
    assert_eq!(
        append_event(JournalFacts { last_position: i64::MAX, ..facts }, at(110)),
        Err(StoreError::Unavailable)
    );
    assert_eq!(
        append_event(JournalFacts { limits: None, ..facts }, at(110)),
        Err(StoreError::Corrupt)
    );
}

#[test]
fn events_are_read_from_their_columns() {
    let numbers = EventNumbers {
        position: 4,
        revision: 2,
        schema_version: 1,
        occurred: (100, 5),
        accepted: true,
    };
    let id = "00000000-0000-0000-0000-000000000007";
    let event = decode_event(numbers, id, Some(id)).unwrap();
    assert_eq!(event.event_id, 7);
    assert_eq!(event.position, 4);
    assert_eq!(event.related_request_id, Some(RequestId(7)));
    assert_eq!(event.occurred_at, Timestamp { seconds: 100, nanos: 5 });
    assert_eq!(decode_event(numbers, "seven", None), Err(StoreError::Corrupt));
    assert_eq!(decode_event(numbers, id, Some("seven")), Err(StoreError::Corrupt));
    for wrong in [
        EventNumbers { position: -1, ..numbers },
        EventNumbers { revision: 0, ..numbers },
        EventNumbers { schema_version: 65_536, ..numbers },
        EventNumbers { occurred: (100, -1), ..numbers },
        EventNumbers { accepted: false, ..numbers },
    ] {
        assert_eq!(decode_event(wrong, id, None), Err(StoreError::Corrupt));
    }
}

#[test]
fn faults_of_the_database_are_told_apart() {
    for (code, expected) in [
        (Some("5"), StoreError::Busy),
        (Some("6"), StoreError::Busy),
        (Some("11"), StoreError::Corrupt),
        (Some("17"), StoreError::Corrupt),
        (Some("26"), StoreError::Corrupt),
        (Some("1"), StoreError::Unavailable),
        (None, StoreError::Unavailable),
    ] {
        assert_eq!(map_sqlx(code), expected);
    }
    assert_eq!(
        map_database_error(DatabaseFault::SchemaTooNew { found: i64::MAX, supported: 3 }),
        StoreError::SchemaTooNew { found: u32::MAX, supported: 3 }
    );
    assert_eq!(map_database_error(DatabaseFault::Database { code: Some("5") }), StoreError::Busy);
    assert_eq!(map_database_error(DatabaseFault::SchemaCorrupt), StoreError::Corrupt);
    assert_eq!(map_database_error(DatabaseFault::InvalidPath), StoreError::Invalid);
    let same = ManifestRow { bound: digest(1), registered: digest(1) };
    let moved = ManifestRow { bound: digest(1), registered: digest(2) };
    let check = |rows, derived| validate_compatibility_manifest(&rows, derived, digest(9));
    assert_eq!(check(vec![same], Some(digest(9))), Ok(()));
    assert_eq!(check(vec![same, moved], Some(digest(9))), Err(StoreError::Corrupt));
    assert_eq!(check(vec![same], Some(digest(8))), Err(StoreError::Corrupt));
    assert_eq!(check(vec![same], None), Err(StoreError::Corrupt));
}
