use navigator_store::approval::ApprovalStatus;
use navigator_store::database::{
    map_database_error, map_sqlx, validate_compatibility_manifest, DatabaseFault, ManifestRow,
};
use navigator_store::error::{CapacityReason, CapacityResource, FailureWire, StoreError};
use navigator_store::identity::{
    cancellation_domain, content_source, decision_identity, event_identity, message_identity,
    outcome_domain, DigestUse,
};
use navigator_store::ids::{
    decode_digest, decode_epoch, decode_revision, derived_identity_bits, derived_store_message_id,
    encode_digest, is_digest, is_identity, parse_artifact_id, parse_driver_id, parse_host_id,
    parse_instance_id, parse_launch_attempt, parse_message_id, parse_operation_id,
    parse_participant_id, parse_request_id, parse_session_id, parse_template_id, to_i64, to_u64,
    ApprovalId, ArtifactId, Digest, FencingEpoch, HostId, MessageId, OperationId, RequestId,
    Revision, SessionId,
};
use navigator_store::sorted::{covers_prefix, insert_distinct, sorted_distinct};
use navigator_store::text::same_text;
use navigator_store::time::{
    decode_timestamp, effect_expiry, elapsed_is, expiry, timestamp_before, Timestamp,
};

fn at(seconds: i64, nanos: u32) -> Timestamp {
    Timestamp { seconds, nanos }
}

#[test]
fn identities_are_read_from_their_text() {
    let text = "01234567-89ab-4def-8123-456789abcdef";
    let bits: u128 = 0x0123456789ab4def8123456789abcdef;
    assert_eq!(parse_session_id(text, true), Ok(SessionId(bits)));
    assert_eq!(parse_host_id(text, true), Ok(HostId(bits)));
    assert_eq!(parse_artifact_id(text, true), Ok(ArtifactId(bits)));
    assert_eq!(parse_artifact_id(text, false), Err(StoreError::Corrupt));
    assert_eq!(parse_message_id("0123456789AB4DEF8123456789ABCDEF", true), Ok(MessageId(bits)));
    assert_eq!(parse_session_id(text, false), Err(StoreError::Corrupt));
    assert_eq!(parse_participant_id(text, false), Err(StoreError::Corrupt));
    assert_eq!(parse_template_id(text, false), Err(StoreError::Corrupt));
    assert_eq!(parse_operation_id(text, false), Err(StoreError::Corrupt));
    assert_eq!(parse_message_id(text, false), Err(StoreError::Corrupt));
    assert_eq!(parse_request_id(text, false), Err(StoreError::Corrupt));
    assert_eq!(parse_driver_id(text, false), Err(StoreError::Corrupt));
    assert_eq!(parse_launch_attempt(text, false), Err(StoreError::Corrupt));
    assert_eq!(parse_instance_id(text, false), Err(StoreError::Corrupt));
    assert_eq!(parse_host_id(text, false), Err(StoreError::Corrupt));
    for wrong in ["", "01234567", "01234567-89ab-4def-8123-456789abcdeg"] {
        assert_eq!(parse_session_id(wrong, true), Err(StoreError::Corrupt));
        assert_eq!(parse_participant_id(wrong, true), Err(StoreError::Corrupt));
        assert_eq!(parse_template_id(wrong, true), Err(StoreError::Corrupt));
        assert_eq!(parse_operation_id(wrong, true), Err(StoreError::Corrupt));
        assert_eq!(parse_message_id(wrong, true), Err(StoreError::Corrupt));
        assert_eq!(parse_request_id(wrong, true), Err(StoreError::Corrupt));
        assert_eq!(parse_driver_id(wrong, true), Err(StoreError::Corrupt));
        assert_eq!(parse_launch_attempt(wrong, true), Err(StoreError::Corrupt));
        assert_eq!(parse_instance_id(wrong, true), Err(StoreError::Corrupt));
        assert_eq!(parse_host_id(wrong, true), Err(StoreError::Corrupt));
    }
}

#[test]
fn derived_identities_carry_the_marks_of_random_uuids() {
    let digest = Digest { high: u128::MAX, low: 7 };
    let bits = derived_identity_bits(digest);
    assert_eq!(bits, 0xffffffffffff4fffbfffffffffffffff);
    assert_eq!(derived_identity_bits(Digest { high: 0, low: 7 }), 0x40008000000000000000);
    assert_eq!(derived_store_message_id(digest, true), Ok(MessageId(bits)));
    assert_eq!(derived_store_message_id(digest, false), Err(StoreError::Corrupt));
}

#[test]
fn digests_are_read_from_their_bytes() {
    let bytes: Vec<u8> = (1..=32).collect();
    let digest = Digest {
        high: 0x0102030405060708090a0b0c0d0e0f10,
        low: 0x1112131415161718191a1b1c1d1e1f20,
    };
    assert_eq!(decode_digest(&bytes), Ok(digest));
    assert_eq!(encode_digest(digest), bytes);
    for length in [0, 16, 31, 33, 64] {
        assert_eq!(decode_digest(&vec![1; length]), Err(StoreError::Corrupt));
    }
    for digest in [Digest { high: 0, low: u128::MAX }, Digest { high: u128::MAX, low: 1 << 127 }] {
        assert_eq!(decode_digest(&encode_digest(digest)), Ok(digest));
    }
    assert!(is_digest(&bytes, digest));
    assert!(!is_digest(&bytes, Digest { low: 0, ..digest }));
    assert!(!is_digest(&bytes[..31].to_vec(), digest));
    assert!(is_identity("00000000-0000-0000-0000-00000000000a", 10));
    assert!(!is_identity("0000000000000000000000000000000a", 10));
}

#[test]
fn contents_are_digested_under_the_name_of_their_use() {
    for (content, name) in [
        (DigestUse::ToolResult, "tool.result"),
        (DigestUse::ToolFailure, "tool.failure"),
        (DigestUse::OperationInput, "operation.input.v1"),
        (DigestUse::PublicOutcome, "operation.public-outcome.v1"),
        (DigestUse::ApprovalSummary, "approval.summary.v1"),
        (DigestUse::ResolutionReason, "effect.resolution.reason.v1"),
        (DigestUse::RecoveryClassifications, "recovery.classify"),
    ] {
        let source = content_source(content, b"content".to_vec());
        assert_eq!(source.capability, name);
        assert_eq!(source.bytes, b"content");
    }
}

#[test]
fn identities_follow_from_requests_and_their_use() {
    let bits: u128 = 0x0102030405060708090a0b0c0d0e0f10;
    let raw: Vec<u8> = (1..=16).collect();
    let event = event_identity(RequestId(bits), "session.opened");
    assert_eq!(event.capability, "event.identity.v1");
    assert_eq!(event.bytes, [&raw[..], b"session.opened"].concat());
    assert_eq!(outcome_domain(), b"navigator.operation.outcome.v1".to_vec());
    let domain = cancellation_domain(OperationId(bits));
    assert_eq!(domain, [&b"navigator.operation.cancel.v1"[..], &raw[..]].concat());
    let message = message_identity(RequestId(255), domain.clone());
    assert_eq!(message.capability, "message.identity.v1");
    assert_eq!(message.bytes, [&domain[..], &[0; 15], &[255]].concat());
    let granted = decision_identity(ApprovalId(bits), ApprovalStatus::Granted).ok().unwrap();
    assert_eq!(granted.capability, "approval.decision.relay.v1");
    assert_eq!(granted.bytes, [&raw[..], b"granted"].concat());
    let denied = decision_identity(ApprovalId(bits), ApprovalStatus::Denied).ok().unwrap();
    assert_eq!(denied.bytes, [&raw[..], b"denied"].concat());
    assert_eq!(
        decision_identity(ApprovalId(bits), ApprovalStatus::Expired).err(),
        Some(StoreError::Invalid)
    );
}

#[test]
fn different_requests_and_uses_have_different_identities() {
    let one = message_identity(RequestId(1), outcome_domain()).bytes;
    assert_ne!(one, message_identity(RequestId(2), outcome_domain()).bytes);
    assert_ne!(one, message_identity(RequestId(1), cancellation_domain(OperationId(3))).bytes);
    assert_ne!(cancellation_domain(OperationId(3)), cancellation_domain(OperationId(4)));
    let event = event_identity(RequestId(1), "session.opened").bytes;
    assert_ne!(event, event_identity(RequestId(1), "session.closed").bytes);
    assert_ne!(event, event_identity(RequestId(2), "session.opened").bytes);
}

#[test]
fn counters_are_stored_and_read_back() {
    assert_eq!(to_u64(0), Ok(0));
    assert_eq!(to_u64(-1), Err(StoreError::Corrupt));
    assert_eq!(to_i64(i64::MAX as u64), Ok(i64::MAX));
    assert_eq!(to_i64(i64::MAX as u64 + 1), Err(StoreError::Corrupt));
    assert_eq!(decode_revision(1), Ok(Revision(1)));
    assert_eq!(decode_revision(0), Err(StoreError::Corrupt));
    assert_eq!(decode_epoch(3), Ok(FencingEpoch(3)));
    assert_eq!(decode_epoch(-3), Err(StoreError::Corrupt));
    assert_eq!(Revision::initial(), Revision(1));
    assert_eq!(Revision(1).next(), Some(Revision(2)));
    assert_eq!(Revision(u64::MAX).next(), None);
    assert_eq!(Revision(u64::MAX).advance(), Err(StoreError::Corrupt));
}

#[test]
fn instants_are_ordered_by_seconds_and_nanoseconds() {
    assert!(at(1, 5).before(at(1, 6)));
    assert!(at(1, 999_999_999).before(at(2, 0)));
    assert!(!at(2, 0).before(at(2, 0)));
    assert_eq!(at(1, 5).later(at(1, 6)), at(1, 6));
    assert_eq!(Timestamp::new(1, 1_000_000_000), Err(StoreError::Corrupt));
    assert_eq!(decode_timestamp(-5, 17), Ok(at(-5, 17)));
    assert_eq!(decode_timestamp(0, -1), Err(StoreError::Corrupt));
    assert_eq!(decode_timestamp(0, 1_000_000_000), Err(StoreError::Corrupt));
    assert_eq!(timestamp_before(5, 1), Ok(at(5, 0)));
    assert_eq!(timestamp_before(5, 0), Ok(at(4, 999_999_999)));
    assert_eq!(timestamp_before(i64::MIN, 0), Err(StoreError::Corrupt));
}

#[test]
fn leases_last_exactly_their_duration() {
    assert_eq!(effect_expiry(at(10, 900_000_000), 1_250), Ok(at(12, 150_000_000)));
    assert_eq!(effect_expiry(at(-1, 0), 500), Ok(at(-1, 500_000_000)));
    assert_eq!(effect_expiry(at(10, 0), u64::MAX), Err(StoreError::LeaseTooLong));
    assert_eq!(effect_expiry(at(i64::MAX, 0), 1), Err(StoreError::Corrupt));
    assert_eq!(effect_expiry(at(253_402_300_799, 0), 1_000), Err(StoreError::Invalid));
    assert_eq!(expiry(at(10, 0), 300_000, 300_000), Ok(at(310, 0)));
    assert_eq!(expiry(at(10, 0), 300_001, 300_000), Err(StoreError::LeaseTooLong));
    assert!(elapsed_is(at(10, 0), at(11, 250_000_000), 1_250));
    assert!(elapsed_is(at(10, 0), at(11, 250_999_999), 1_250));
    assert!(!elapsed_is(at(10, 0), at(11, 250_000_000), 1_251));
    assert!(elapsed_is(at(10, 0), at(9, 999_999_999), 0));
}

#[test]
fn failures_are_read_back_from_the_ledger() {
    let errors = vec![
        StoreError::SessionNotFound { session_id: SessionId(1) },
        StoreError::StaleOwnership {
            session_id: SessionId(1),
            attempted: FencingEpoch(2),
            current: Some(FencingEpoch(3)),
        },
        StoreError::ConsumerConflict {
            session_id: SessionId(1),
            persisted: "one".to_string(),
            requested: "two".to_string(),
        },
        StoreError::CapacityExceeded {
            reason: CapacityReason::GlobalLimit { resource: CapacityResource::Retries },
        },
        StoreError::LeaseTooLong,
        StoreError::Unavailable,
    ];
    for error in errors {
        assert_eq!(StoreError::from(FailureWire::from(&error)), error);
    }
}

#[test]
fn database_errors_are_told_apart_by_their_code() {
    assert_eq!(map_sqlx(Some("5")), StoreError::Busy);
    assert_eq!(map_sqlx(Some("6")), StoreError::Busy);
    assert_eq!(map_sqlx(Some("11")), StoreError::Corrupt);
    assert_eq!(map_sqlx(Some("17")), StoreError::Corrupt);
    assert_eq!(map_sqlx(Some("26")), StoreError::Corrupt);
    assert_eq!(map_sqlx(Some("1")), StoreError::Unavailable);
    assert_eq!(map_sqlx(Some("55")), StoreError::Unavailable);
    assert_eq!(map_sqlx(None), StoreError::Unavailable);
    assert_eq!(
        map_database_error(DatabaseFault::SchemaTooNew { found: 9, supported: 7 }),
        StoreError::SchemaTooNew { found: 9, supported: 7 }
    );
    assert_eq!(
        map_database_error(DatabaseFault::SchemaTooNew { found: -9, supported: 1 << 40 }),
        StoreError::SchemaTooNew { found: u32::MAX, supported: u32::MAX }
    );
    assert_eq!(map_database_error(DatabaseFault::Database { code: Some("5") }), StoreError::Busy);
    assert_eq!(map_database_error(DatabaseFault::SchemaCorrupt), StoreError::Corrupt);
    assert_eq!(map_database_error(DatabaseFault::InvalidPath), StoreError::Invalid);
}

#[test]
fn manifests_are_checked_when_the_store_is_opened() {
    let one = Digest { high: 1, low: 1 };
    let two = Digest { high: 2, low: 2 };
    let good = vec![ManifestRow { bound: one, registered: one }];
    let changed = vec![
        ManifestRow { bound: one, registered: one },
        ManifestRow { bound: one, registered: two },
    ];
    assert_eq!(validate_compatibility_manifest(&good, Some(two), two), Ok(()));
    assert_eq!(
        validate_compatibility_manifest(&good, Some(one), two),
        Err(StoreError::Corrupt)
    );
    assert_eq!(validate_compatibility_manifest(&good, None, two), Err(StoreError::Corrupt));
    assert_eq!(
        validate_compatibility_manifest(&changed, Some(two), two),
        Err(StoreError::Corrupt)
    );
}

#[test]
fn texts_are_compared_by_their_characters() {
    assert!(same_text("", ""));
    assert!(same_text("gr\u{fc}n", "gr\u{fc}n"));
    assert!(!same_text("gr\u{fc}n", "grun"));
    assert!(!same_text("one", "ones"));
}

#[test]
fn numbers_are_kept_in_order_without_repetition() {
    let mut values: Vec<u128> = Vec::new();
    assert!(insert_distinct(&mut values, 5));
    assert!(insert_distinct(&mut values, 1));
    assert!(insert_distinct(&mut values, 3));
    assert!(!insert_distinct(&mut values, 3));
    assert_eq!(values, vec![1, 3, 5]);
    assert_eq!(sorted_distinct(&vec![9, 2, 4]), Some(vec![2, 4, 9]));
    assert_eq!(sorted_distinct(&vec![9, 2, 9]), None);
    assert_eq!(sorted_distinct(&Vec::new()), Some(Vec::new()));
    assert!(covers_prefix(&vec![1, 2, 3], 3));
    assert!(!covers_prefix(&vec![1, 3], 3));
    assert!(!covers_prefix(&vec![0, 1, 2], 2));
    assert!(!covers_prefix(&Vec::new(), 1));
}
