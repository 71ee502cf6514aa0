use navigator_store::error::{FailureWire, OwnershipSnapshot, Refusal, StoreError};
use navigator_store::ids::{
    encode_digest, Digest, FencingEpoch, HostId, RequestId, Revision, SessionId, TemplateId,
};
use navigator_store::ledger::{
    action_name, approval_effect_identity_available, begin_request, decode_stored_request,
    mutation_replay, parse_action, reject_effect_identity_collision, reject_request_collision,
    replay_bytes, stored_result_kind, Begin, LedgerRow, RecordedMutation, Request, RequestContext,
    StoreAction, StoredEffect, StoredOutcome, StoredResultKind,
};
use navigator_store::session::{
    acquire_ownership, authorize, close_session, decode_session, event_page,
    new_session_manifest_is_registered, open_session, read_ownership, register_template,
    register_templates_and_open_session, release_ownership, renew_ownership, require_open_session,
    require_owner, resolve_open_mode, seal_authority, session_allows_template, session_storage_key,
    validate_close_replay, validate_launch_authority, validate_lease_replay, validate_open_replay,
    validate_registered_templates, validate_registration_replay, AcquireOwnership, KeptManifest,
    LeaseWire, OpenSession, OwnerColumns, OwnershipLease, SealedAuthority, SessionColumns,
    SessionOpenMode, SessionRow, SessionSnapshot, SessionStatus, TemplateBinding, TemplateFinding,
};
use navigator_store::time::Timestamp;
use uuid::Uuid;

const ME: HostId = HostId(100);
const OTHER: HostId = HostId(101);
const SESSION: SessionId = SessionId(7);

fn at(seconds: i64) -> Timestamp {
    Timestamp { seconds, nanos: 0 }
}

fn digest(n: u128) -> Digest {
    Digest { high: n, low: n }
}

fn snapshot(status: SessionStatus) -> SessionSnapshot {
    SessionSnapshot {
        id: SESSION,
        consumer_key: "consumer".to_string(),
        compatibility: digest(1),
        status,
        revision: Revision(4),
        created_at: at(10),
        updated_at: at(20),
    }
}

fn lease(owner: HostId, epoch: u64, expires: i64) -> OwnershipLease {
    OwnershipLease {
        session_id: SESSION,
        owner,
        epoch: FencingEpoch(epoch),
        expires_at: at(expires),
    }
}

fn row(status: SessionStatus, owner: Option<OwnershipLease>) -> SessionRow {
    SessionRow { snapshot: snapshot(status), owner, epoch_high_water: 3, time_floor: at(50) }
}

fn wish(mode: SessionOpenMode, manifest: Option<Vec<TemplateBinding>>) -> OpenSession {
    OpenSession {
        session_id: SESSION,
        consumer_key: "consumer".to_string(),
        compatibility: digest(1),
        mode,
        manifest,
    }
}

fn kept(error: StoreError) -> Refusal {
    Refusal { error, recorded: true }
}

fn request(n: u128, action: &str) -> Request {
    Request {
        context: RequestContext { request_id: RequestId(n), caller: ME },
        action: action.to_string(),
        digest: digest(n),
    }
}

fn ledger_row(
    caller: HostId,
    action: &str,
    outcome: &str,
    failure: Option<FailureWire>,
) -> LedgerRow {
    LedgerRow {
        caller: Uuid::from_u128(caller.0).to_string(),
        action: action.to_string(),
        digest: encode_digest(digest(9)),
        outcome: outcome.to_string(),
        failure,
    }
}

#[test]
fn only_the_owner_at_the_current_epoch_passes() {
    let open = row(SessionStatus::Open, Some(lease(ME, 3, 60)));
    assert_eq!(require_owner(&open, ME, FencingEpoch(3), at(59)), Ok(()));
    assert_eq!(
        require_owner(&open, ME, FencingEpoch(3), at(60)),
        Err(StoreError::OwnershipExpired { session_id: SESSION, epoch: FencingEpoch(3) })
    );
    let stale = Err(StoreError::StaleOwnership {
        session_id: SESSION,
        attempted: FencingEpoch(2),
        current: Some(FencingEpoch(3)),
    });
    assert_eq!(require_owner(&open, ME, FencingEpoch(2), at(55)), stale);
    assert_eq!(
        require_owner(&open, OTHER, FencingEpoch(3), at(55)),
        Err(StoreError::StaleOwnership {
            session_id: SESSION,
            attempted: FencingEpoch(3),
            current: Some(FencingEpoch(3)),
        })
    );
    assert_eq!(
        require_owner(&row(SessionStatus::Open, None), ME, FencingEpoch(3), at(55)),
        Err(StoreError::StaleOwnership {
            session_id: SESSION,
            attempted: FencingEpoch(3),
            current: None,
        })
    );
}

#[test]
fn closed_and_missing_sessions_are_refused() {
    let closed = row(SessionStatus::Closed, None);
    assert_eq!(
        require_open_session(SESSION, None, false),
        Err(StoreError::SessionNotFound { session_id: SESSION })
    );
    assert_eq!(
        require_open_session(SESSION, Some(&closed), false),
        Err(StoreError::SessionClosed { session_id: SESSION })
    );
    assert_eq!(
        require_open_session(SESSION, Some(&closed), true),
        Err(StoreError::AlreadyClosed { session_id: SESSION })
    );
}

#[test]
fn an_ended_ownership_stays_ended_when_the_clock_runs_back() {
    let open = row(SessionStatus::Open, Some(lease(ME, 3, 60)));
    let late = authorize(SESSION, Some(&open), ME, FencingEpoch(3), false, at(70));
    assert_eq!(late.time_floor, Some(at(70)));
    assert!(late.refusal.is_some());
    let mut sealed = row(SessionStatus::Open, Some(lease(ME, 3, 60)));
    sealed.time_floor = at(70);
    let back = authorize(SESSION, Some(&sealed), ME, FencingEpoch(3), false, at(40));
    assert_eq!(back.time_floor, Some(at(70)));
    assert_eq!(
        back.refusal,
        Some(StoreError::OwnershipExpired { session_id: SESSION, epoch: FencingEpoch(3) })
    );
}

#[test]
fn epochs_grow_and_ownership_is_exclusive() {
    let command = AcquireOwnership {
        context: RequestContext { request_id: RequestId(1), caller: OTHER },
        session_id: SESSION,
        duration_millis: 5_000,
    };
    let plan = acquire_ownership(command, &row(SessionStatus::Open, None), at(50), 300_000).unwrap();
    assert_eq!(plan.lease, lease(OTHER, 4, 55));
    assert_eq!(plan.epoch_high_water, 4);
    assert_eq!(plan.revision, Revision(5));
    let held = row(SessionStatus::Open, Some(lease(ME, 3, 51)));
    assert_eq!(
        acquire_ownership(command, &held, at(50), 300_000),
        Err(kept(StoreError::OwnershipHeld {
            ownership: OwnershipSnapshot::Owned {
                host_id: ME,
                epoch: FencingEpoch(3),
                expires_at: at(51),
            },
        }))
    );
    assert!(acquire_ownership(command, &held, at(51), 300_000).is_ok());
    assert_eq!(
        acquire_ownership(command, &held, at(51), 4_999),
        Err(kept(StoreError::LeaseTooLong))
    );
    let nothing = AcquireOwnership { duration_millis: 0, ..command };
    assert_eq!(
        acquire_ownership(nothing, &held, at(51), 300_000),
        Err(kept(StoreError::Invalid))
    );
    let mut spent = row(SessionStatus::Open, None);
    spent.epoch_high_water = u64::MAX;
    assert_eq!(
        acquire_ownership(command, &spent, at(51), 300_000),
        Err(Refusal { error: StoreError::Corrupt, recorded: false })
    );
}

#[test]
fn acquisitions_are_replayed_from_their_record() {
    let given = lease(ME, 4, 55);
    let wire = LeaseWire::from_lease(given, at(50));
    assert_eq!(wire.into_lease(true), Ok(given));
    assert_eq!(validate_lease_replay(wire, true, SESSION, ME, None, 5_000), Ok(given));
    assert_eq!(
        validate_lease_replay(wire, true, SESSION, ME, Some(FencingEpoch(4)), 5_000),
        Ok(given)
    );
    assert_eq!(
        validate_lease_replay(wire, true, SESSION, ME, Some(FencingEpoch(5)), 5_000),
        Err(StoreError::Corrupt)
    );
    let replayed = |caller, millis| validate_lease_replay(wire, true, SESSION, caller, None, millis);
    assert_eq!(replayed(OTHER, 5_000), Err(StoreError::Corrupt));
    assert_eq!(replayed(ME, 5_001), Err(StoreError::Corrupt));
    assert_eq!(wire.into_lease(false), Err(StoreError::Corrupt));
    assert_eq!(
        validate_lease_replay(wire, false, SESSION, ME, None, 5_000),
        Err(StoreError::Corrupt)
    );
    let backwards = LeaseWire::from_lease(given, at(55));
    assert_eq!(backwards.into_lease(true), Err(StoreError::Corrupt));
}

#[test]
fn ownership_is_renewed_released_and_read() {
    let context = RequestContext { request_id: RequestId(1), caller: ME };
    assert_eq!(
        renew_ownership(context, SESSION, FencingEpoch(3), 10_000, at(50), 300_000),
        Ok(lease(ME, 3, 60))
    );
    assert_eq!(
        renew_ownership(context, SESSION, FencingEpoch(3), 10_000, at(50), 9_999),
        Err(kept(StoreError::LeaseTooLong))
    );
    let open = row(SessionStatus::Open, Some(lease(ME, 3, 60)));
    let released = release_ownership(row(SessionStatus::Open, Some(lease(ME, 3, 60))), at(55));
    assert_eq!(
        released,
        Ok(SessionRow {
            snapshot: SessionSnapshot {
                revision: Revision(5),
                updated_at: at(55),
                ..snapshot(SessionStatus::Open)
            },
            owner: None,
            epoch_high_water: 3,
            time_floor: at(55),
        })
    );
    let mut spent = row(SessionStatus::Open, Some(lease(ME, 3, 60)));
    spent.snapshot.revision = Revision(u64::MAX);
    assert_eq!(release_ownership(spent, at(55)), Err(StoreError::Corrupt));
    assert_eq!(
        read_ownership(&open, at(10)),
        OwnershipSnapshot::Owned { host_id: ME, epoch: FencingEpoch(3), expires_at: at(60) }
    );
    assert_eq!(read_ownership(&open, at(60)), OwnershipSnapshot::Unowned);
    assert_eq!(read_ownership(&row(SessionStatus::Open, None), at(10)), OwnershipSnapshot::Unowned);
}

#[test]
fn watchdogs_do_not_forget_what_they_saw() {
    let open = row(SessionStatus::Open, Some(lease(ME, 3, 60)));
    let judged =
        validate_launch_authority(SESSION, Some(&open), Some(at(58)), ME, FencingEpoch(3), at(40));
    assert_eq!((judged.remembered, judged.refusal, judged.seal), (Some(at(58)), None, false));
    let ended =
        validate_launch_authority(SESSION, Some(&open), Some(at(61)), ME, FencingEpoch(3), at(40));
    assert_eq!(ended.remembered, Some(at(61)));
    assert!(ended.seal);
    let stale =
        validate_launch_authority(SESSION, Some(&open), None, OTHER, FencingEpoch(3), at(40));
    assert!(stale.refusal.is_some() && !stale.seal);
    let missing = validate_launch_authority(SESSION, None, None, ME, FencingEpoch(3), at(40));
    assert_eq!(missing.refusal, Some(StoreError::SessionNotFound { session_id: SESSION }));
}

#[test]
fn an_end_that_was_seen_is_kept_past_renewals() {
    let open = row(SessionStatus::Open, Some(lease(ME, 3, 60)));
    let ended = StoreError::OwnershipExpired { session_id: SESSION, epoch: FencingEpoch(3) };
    assert_eq!(
        seal_authority(SESSION, Some(&open), ME, FencingEpoch(3), at(61)),
        SealedAuthority { floor: Some(at(61)), refusal: Some(ended) }
    );
    let renewed = row(SessionStatus::Open, Some(lease(ME, 3, 90)));
    assert_eq!(
        seal_authority(SESSION, Some(&renewed), ME, FencingEpoch(3), at(61)),
        SealedAuthority { floor: Some(at(61)), refusal: None }
    );
    let later = SessionRow { time_floor: at(95), ..row(SessionStatus::Open, Some(lease(ME, 3, 90))) };
    let judged = seal_authority(SESSION, Some(&later), ME, FencingEpoch(3), at(61));
    assert_eq!(judged.floor, Some(at(95)));
    assert!(judged.refusal.is_some());
    assert_eq!(
        seal_authority(SESSION, None, ME, FencingEpoch(3), at(61)),
        SealedAuthority {
            floor: None,
            refusal: Some(StoreError::SessionNotFound { session_id: SESSION }),
        }
    );
    let closed = row(SessionStatus::Closed, None);
    assert_eq!(
        seal_authority(SESSION, Some(&closed), ME, FencingEpoch(3), at(61)),
        SealedAuthority {
            floor: None,
            refusal: Some(StoreError::SessionClosed { session_id: SESSION }),
        }
    );
    let sealed = SessionRow { time_floor: at(61), ..row(SessionStatus::Open, Some(lease(ME, 3, 60))) };
    let again = authorize(SESSION, Some(&sealed), ME, FencingEpoch(3), false, at(10));
    assert_eq!(again.time_floor, Some(at(61)));
    assert!(again.refusal.is_some());
}

#[test]
fn registrations_are_replayed_by_their_mode() {
    let same = vec![TemplateFinding::Same];
    let moved = SessionSnapshot { id: SessionId(8), ..snapshot(SessionStatus::Open) };
    let replay = |mode, found: &Vec<TemplateFinding>| {
        validate_registration_replay(&moved, &wish(mode, None), found)
    };
    assert_eq!(replay(SessionOpenMode::Exact, &same), Err(StoreError::Corrupt));
    assert_eq!(replay(SessionOpenMode::Open, &same), Ok(()));
    assert_eq!(replay(SessionOpenMode::Resume, &same), Ok(()));
    assert_eq!(replay(SessionOpenMode::Reset, &same), Ok(()));
    let other = vec![TemplateFinding::Same, TemplateFinding::Different];
    assert_eq!(replay(SessionOpenMode::Open, &other), Err(StoreError::Corrupt));
    assert_eq!(
        validate_registration_replay(
            &snapshot(SessionStatus::Open),
            &wish(SessionOpenMode::Exact, None),
            &same
        ),
        Ok(())
    );
}

#[test]
fn sessions_are_opened_once() {
    let none = KeptManifest { complete: 0, bindings: Vec::new() };
    let fresh =
        open_session(&wish(SessionOpenMode::Exact, None), None, &none, &Vec::new(), at(50))
            .unwrap()
            .unwrap();
    assert_eq!(fresh.revision, Revision(1));
    assert_eq!(fresh.status, SessionStatus::Open);
    assert_eq!((fresh.created_at, fresh.updated_at), (at(50), at(50)));
    let again = wish(SessionOpenMode::Exact, None);
    assert_eq!(open_session(&again, Some(&fresh), &none, &Vec::new(), at(60)), Ok(None));
    assert_eq!(validate_open_replay(&fresh, &again), Ok(()));
    let mut other = wish(SessionOpenMode::Exact, None);
    other.compatibility = digest(2);
    assert_eq!(
        open_session(&other, Some(&fresh), &none, &Vec::new(), at(60)),
        Err(kept(StoreError::CompatibilityConflict {
            session_id: SESSION,
            persisted: digest(1),
            requested: digest(2),
        }))
    );
    assert_eq!(validate_open_replay(&fresh, &other), Err(StoreError::Corrupt));
    let mut stranger = wish(SessionOpenMode::Exact, None);
    stranger.consumer_key = "stranger".to_string();
    assert_eq!(
        open_session(&stranger, Some(&fresh), &none, &Vec::new(), at(60)),
        Err(kept(StoreError::ConsumerConflict {
            session_id: SESSION,
            persisted: "consumer".to_string(),
            requested: "stranger".to_string(),
        }))
    );
}

#[test]
fn manifests_are_kept_and_compared() {
    let bindings = vec![TemplateBinding { template_id: TemplateId(1), compatibility: digest(5) }];
    let command = wish(SessionOpenMode::Exact, Some(bindings));
    let same = KeptManifest {
        complete: 1,
        bindings: vec![TemplateBinding { template_id: TemplateId(1), compatibility: digest(5) }],
    };
    let other = KeptManifest { complete: 1, bindings: Vec::new() };
    let existing = snapshot(SessionStatus::Open);
    let registered = vec![Some(digest(5))];
    assert_eq!(open_session(&command, Some(&existing), &same, &registered, at(60)), Ok(None));
    assert_eq!(
        open_session(&command, Some(&existing), &other, &registered, at(60)),
        Err(kept(StoreError::CompatibilityConflict {
            session_id: SESSION,
            persisted: digest(1),
            requested: digest(1),
        }))
    );
    assert!(new_session_manifest_is_registered(&command, &registered));
    assert!(!new_session_manifest_is_registered(&command, &vec![Some(digest(6))]));
    assert!(!new_session_manifest_is_registered(&command, &vec![None]));
    assert_eq!(
        open_session(&command, None, &other, &vec![None], at(60)),
        Err(kept(StoreError::Invalid))
    );
    assert!(session_allows_template(Some((digest(1), 0)), None, digest(1)));
    assert!(!session_allows_template(Some((digest(1), 1)), None, digest(1)));
    assert!(session_allows_template(Some((digest(1), 1)), Some(digest(5)), digest(5)));
    assert!(!session_allows_template(None, Some(digest(5)), digest(5)));
}

#[test]
fn the_mode_decides_which_session_is_opened() {
    let existing = SessionSnapshot { id: SessionId(8), ..snapshot(SessionStatus::Open) };
    let resolve = |mode, found: Option<&SessionSnapshot>, unfinished, unresolved| {
        resolve_open_mode(&wish(mode, None), found, unfinished, unresolved)
    };
    assert_eq!(resolve(SessionOpenMode::Exact, Some(&existing), true, true), Ok(SESSION));
    assert_eq!(resolve(SessionOpenMode::Open, Some(&existing), false, false), Ok(SessionId(8)));
    assert_eq!(resolve(SessionOpenMode::Resume, Some(&existing), true, false), Ok(SessionId(8)));
    let interrupted = Err(kept(StoreError::InterruptedSession { session_id: SessionId(8) }));
    assert_eq!(resolve(SessionOpenMode::Open, Some(&existing), true, false), interrupted);
    assert_eq!(
        resolve(SessionOpenMode::Reset, Some(&existing), false, false),
        Err(kept(StoreError::InterruptedSession { session_id: SessionId(8) }))
    );
    assert_eq!(resolve(SessionOpenMode::Reset, None, false, false), Ok(SESSION));
    assert_eq!(
        resolve(SessionOpenMode::Reset, None, false, true),
        Err(Refusal { error: StoreError::Invalid, recorded: false })
    );
}

#[test]
fn templates_are_registered_with_the_session() {
    assert_eq!(register_template(TemplateFinding::Missing), Ok(true));
    assert_eq!(register_template(TemplateFinding::Same), Ok(false));
    assert_eq!(register_template(TemplateFinding::Different), Err(StoreError::Invalid));
    assert_eq!(register_template(TemplateFinding::Malformed), Err(StoreError::Invalid));
    assert_eq!(validate_registered_templates(&vec![TemplateFinding::Same]), Ok(()));
    assert_eq!(
        validate_registered_templates(&vec![TemplateFinding::Missing]),
        Err(StoreError::Corrupt)
    );
    let none = KeptManifest { complete: 0, bindings: Vec::new() };
    let open = wish(SessionOpenMode::Exact, None);
    let findings = vec![TemplateFinding::Missing, TemplateFinding::Same];
    let fresh = register_templates_and_open_session(&open, &findings, None, &none, at(50)).unwrap();
    assert!(fresh.is_some());
    assert_eq!(
        register_templates_and_open_session(&open, &findings, fresh.as_ref(), &none, at(60)),
        Ok(None)
    );
    assert_eq!(
        register_templates_and_open_session(
            &open,
            &vec![TemplateFinding::Different],
            None,
            &none,
            at(50)
        ),
        Err(StoreError::Invalid)
    );
}

#[test]
fn sessions_are_closed_at_their_next_revision() {
    let closed = close_session(snapshot(SessionStatus::Open), at(30)).unwrap();
    assert_eq!(closed.status, SessionStatus::Closed);
    assert_eq!(closed.revision, Revision(5));
    assert_eq!(closed.updated_at, at(30));
    assert_eq!(close_session(snapshot(SessionStatus::Open), at(19)), Err(StoreError::Invalid));
    assert_eq!(validate_close_replay(&closed, SESSION), Ok(()));
    assert_eq!(validate_close_replay(&closed, SessionId(8)), Err(StoreError::Corrupt));
    assert_eq!(
        validate_close_replay(&snapshot(SessionStatus::Open), SESSION),
        Err(StoreError::Corrupt)
    );
}

#[test]
fn sessions_are_stored_under_a_key_of_their_own() {
    let key = "consumer".to_string();
    assert_eq!(session_storage_key(&key, false, SESSION), "consumer");
    assert_eq!(
        session_storage_key(&key, true, SESSION),
        "session:00000000-0000-0000-0000-000000000007"
    );
}

#[test]
fn sessions_are_read_from_their_columns() {
    let columns = |closed: i64, owner: Option<OwnerColumns>, high_water: i64| SessionColumns {
        id: SESSION,
        consumer_key: "consumer".to_string(),
        compatibility: digest(1),
        revision: 4,
        closed,
        created_at: (10, 0),
        updated_at: (20, 0),
        owner,
        epoch_high_water: high_water,
        time_floor: (50, 0),
    };
    let owner =
        OwnerColumns { host_id: ME, epoch: 3, expires_seconds: 60, expires_nanos: 0 };
    assert_eq!(
        decode_session(columns(0, Some(owner), 3)),
        Ok(row(SessionStatus::Open, Some(lease(ME, 3, 60))))
    );
    assert_eq!(decode_session(columns(1, None, 3)), Ok(row(SessionStatus::Closed, None)));
    assert_eq!(decode_session(columns(2, None, 3)), Err(StoreError::Corrupt));
    assert_eq!(decode_session(columns(0, Some(owner), 2)), Err(StoreError::Corrupt));
    assert_eq!(decode_session(columns(0, None, -1)), Err(StoreError::Corrupt));
}

#[test]
fn event_pages_tell_whether_there_is_more() {
    assert_eq!(event_page(3, 3), (3, false));
    assert_eq!(event_page(4, 3), (3, true));
    assert_eq!(event_page(0, 3), (0, false));
}

#[test]
fn recorded_requests_are_replayed_and_never_changed() {
    let same = request(9, "session.close");
    assert_eq!(
        replay_bytes(&same, Some(ledger_row(ME, "session.close", "succeeded", None)), false),
        Ok(true)
    );
    assert_eq!(replay_bytes(&same, None, false), Ok(false));
    let conflict = Err(StoreError::RequestConflict { request_id: RequestId(9) });
    assert_eq!(replay_bytes(&same, None, true), conflict);
    for wrong in [
        ledger_row(OTHER, "session.close", "succeeded", None),
        ledger_row(ME, "session.open", "succeeded", None),
    ] {
        assert_eq!(
            replay_bytes(&same, Some(wrong), false),
            Err(StoreError::RequestConflict { request_id: RequestId(9) })
        );
    }
    assert_eq!(
        replay_bytes(
            &same,
            Some(ledger_row(ME, "session.close", "failed", Some(FailureWire::Busy))),
            false
        ),
        Err(StoreError::Busy)
    );
    assert_eq!(
        replay_bytes(&same, Some(ledger_row(ME, "session.close", "maybe", None)), false),
        Err(StoreError::Corrupt)
    );
}

#[test]
fn requests_begin_at_the_time_floor() {
    let open = row(SessionStatus::Open, Some(lease(ME, 3, 60)));
    let fresh = request(9, "operation.start");
    match begin_request(
        &fresh,
        None,
        false,
        SESSION,
        Some(&open),
        FencingEpoch(3),
        false,
        at(40),
    ) {
        Begin::Proceed { now } => assert_eq!(now, at(50)),
        _ => panic!("the owner may go on"),
    }
    match begin_request(&fresh, None, false, SESSION, None, FencingEpoch(3), false, at(40)) {
        Begin::Refused { refusal, time_floor } => {
            assert_eq!(
                refusal.error,
                StoreError::SessionNotFound { session_id: SESSION }
            );
            assert_eq!(time_floor, None);
        }
        _ => panic!("there is no session"),
    }
    match begin_request(
        &fresh,
        Some(ledger_row(ME, "operation.start", "succeeded", None)),
        false,
        SESSION,
        Some(&open),
        FencingEpoch(9),
        false,
        at(40),
    ) {
        Begin::Replayed => {}
        _ => panic!("the request was recorded"),
    }
}

#[test]
fn identities_are_not_shared_between_requests_and_effects() {
    let conflict = Err(StoreError::RequestConflict { request_id: RequestId(1) });
    assert_eq!(reject_request_collision(RequestId(1), false), Ok(()));
    assert_eq!(reject_request_collision(RequestId(1), true), conflict);
    assert_eq!(
        reject_effect_identity_collision(RequestId(1), RequestId(1), false),
        Err(StoreError::RequestConflict { request_id: RequestId(1) })
    );
    assert_eq!(reject_effect_identity_collision(RequestId(1), RequestId(2), false), Ok(()));
    assert!(reject_effect_identity_collision(RequestId(1), RequestId(2), true).is_err());
    assert_eq!(approval_effect_identity_available(RequestId(1), RequestId(2), false), Ok(()));
    assert!(approval_effect_identity_available(RequestId(1), RequestId(1), false).is_err());
    assert!(approval_effect_identity_available(RequestId(1), RequestId(2), true).is_err());
    let context = RequestContext { request_id: RequestId(1), caller: ME };
    let recorded = || RecordedMutation {
        subject: Uuid::from_u128(5).to_string(),
        caller: Uuid::from_u128(ME.0).to_string(),
        digest: encode_digest(digest(2)),
    };
    assert_eq!(mutation_replay(context, 5, digest(2), None), Ok(false));
    assert_eq!(mutation_replay(context, 5, digest(2), Some(recorded())), Ok(true));
    assert!(mutation_replay(context, 6, digest(2), Some(recorded())).is_err());
    assert!(mutation_replay(context, 5, digest(3), Some(recorded())).is_err());
    let short = RecordedMutation { digest: vec![2; 31], ..recorded() };
    assert!(mutation_replay(context, 5, digest(2), Some(short)).is_err());
}

#[test]
fn stored_requests_are_decoded() {
    for action in [
        StoreAction::OpenSession,
        StoreAction::RenewOwnership,
        StoreAction::TransitionMessageDelivery,
        StoreAction::RegisterAuthorityTemplatePolicy,
    ] {
        assert_eq!(parse_action(action_name(action)), Ok(action));
    }
    assert_eq!(parse_action("no.such.action"), Err(StoreError::Corrupt));
    assert_eq!(stored_result_kind(StoreAction::CloseSession), StoredResultKind::Session);
    assert_eq!(stored_result_kind(StoreAction::IssueGrant), StoredResultKind::Grant);
    let name = action_name(StoreAction::StartOperation);
    let stored = decode_stored_request(
        RequestId(1),
        ledger_row(ME, name, "succeeded", None),
        true,
        Some("unchanged"),
        true,
    )
    .unwrap();
    assert_eq!(stored.action, StoreAction::StartOperation);
    assert_eq!(
        stored.outcome,
        StoredOutcome::Succeeded {
            effect: StoredEffect::Unchanged,
            kind: StoredResultKind::Operation,
        }
    );
    let failed = decode_stored_request(
        RequestId(1),
        ledger_row(ME, name, "failed", Some(FailureWire::Invalid)),
        true,
        None,
        true,
    )
    .unwrap();
    assert_eq!(failed.outcome, StoredOutcome::Failed(StoreError::Invalid));
    assert_eq!((stored.caller, stored.digest), (ME, digest(9)));
    let row = || ledger_row(ME, name, "succeeded", None);
    let decode = |row, accepted, effect| {
        decode_stored_request(RequestId(1), row, accepted, effect, true)
    };
    assert!(decode(row(), true, Some("applied")).is_ok());
    assert_eq!(
        decode_stored_request(RequestId(1), row(), true, Some("applied"), false),
        Err(StoreError::Corrupt)
    );
    assert_eq!(decode(row(), true, Some("odd")), Err(StoreError::Corrupt));
    assert_eq!(decode(row(), true, None), Err(StoreError::Corrupt));
    assert_eq!(decode(row(), false, Some("applied")), Err(StoreError::Corrupt));
    for broken in [
        LedgerRow { digest: vec![9; 31], ..row() },
        LedgerRow { digest: vec![9; 33], ..row() },
        LedgerRow { digest: Vec::new(), ..row() },
        LedgerRow { caller: "someone".to_string(), ..row() },
        LedgerRow { action: "no.such.action".to_string(), ..row() },
        LedgerRow { outcome: "maybe".to_string(), ..row() },
    ] {
        assert_eq!(decode(broken, true, Some("applied")), Err(StoreError::Corrupt));
    }
}
