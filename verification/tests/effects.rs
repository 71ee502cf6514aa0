use navigator_store::authority::{GrantSnapshot, Grant, ResourceScope, StoreCapability};
use navigator_store::effect::{
    admit_effect, check_effect_linkage, decode_effect, effect_class_name, effect_phase_name,
    lease_millis, parse_effect_class, parse_effect_phase, reserve_effect, resolution_authority,
    resolution_name, resolve_authorized_effect, takeover_effect, transition_effect,
    validate_authorized_effect_replay, EffectClass, EffectEntry, EffectFailure, EffectPhase,
    EffectPlan, EffectResolution, EffectTerminal, EffectTransition, ReserveEffect,
    ResolutionContract, ResolutionFacts, ResolveAuthorizedEffect, TakeoverEffect, ToolFailureKind,
    UncertaintyResolution,
};
use navigator_store::error::StoreError;
use navigator_store::ids::{
    Digest, FencingEpoch, GrantId, HostId, MessageId, OperationId, ParticipantId, RequestId,
    Revision, SessionId, TemplateId,
};
use navigator_store::operation::{OperationSnapshot, OperationState, ParticipantSnapshot};
use navigator_store::time::Timestamp;

const SESSION: SessionId = SessionId(1);
const ME: HostId = HostId(100);
const OTHER: HostId = HostId(101);
const EPOCH: FencingEpoch = FencingEpoch(3);

fn at(seconds: i64) -> Timestamp {
    Timestamp { seconds, nanos: 0 }
}

fn digest(n: u128) -> Digest {
    Digest { high: n, low: n }
}

fn contract() -> ResolutionContract {
    ResolutionContract { identity: digest(7), allow_do_not_retry: true }
}

fn entry(phase: EffectPhase) -> EffectEntry {
    EffectEntry {
        request_id: RequestId(1),
        session_id: SESSION,
        participant_id: ParticipantId(10),
        operation_id: OperationId(20),
        caller: ME,
        action: digest(5),
        semantic_digest: digest(6),
        effect_class: EffectClass::NonIdempotent,
        contract: contract(),
        phase,
        owner_host: ME,
        owner_epoch: EPOCH,
        lease_expires_at: at(110),
        terminal: None,
        revision: Revision(1),
    }
}

fn participant() -> ParticipantSnapshot {
    ParticipantSnapshot {
        session_id: SESSION,
        participant_id: ParticipantId(10),
        parent_participant_id: None,
        depth: 1,
        template_id: TemplateId(5),
        template_compatibility: digest(5),
        revision: Revision(1),
    }
}

fn operation(state: OperationState) -> OperationSnapshot {
    OperationSnapshot {
        session_id: SESSION,
        operation_id: OperationId(20),
        participant_id: ParticipantId(10),
        start_request_id: RequestId(40),
        input_message_id: MessageId(30),
        waiting_on_message_id: None,
        input_digest: digest(6),
        state,
        revision: Revision(3),
        terminal_outcome: None,
        created_at: at(50),
        updated_at: at(60),
    }
}

fn wish() -> ReserveEffect {
    ReserveEffect {
        request_id: RequestId(1),
        caller: ME,
        session_id: SESSION,
        participant_id: ParticipantId(10),
        operation_id: OperationId(20),
        owner_epoch: EPOCH,
        action: digest(5),
        semantic_digest: digest(6),
        effect_class: EffectClass::NonIdempotent,
        contract: contract(),
        lease_millis: 10_000,
    }
}

fn report(revision: u64, resolution: Option<EffectResolution>) -> EffectTransition {
    EffectTransition {
        caller: ME,
        owner_epoch: EPOCH,
        expected_revision: Revision(revision),
        resolution,
    }
}

fn grant(single_use: bool, consumed_at: Option<Timestamp>) -> GrantSnapshot {
    GrantSnapshot {
        grant: Grant {
            id: GrantId(80),
            session_id: SESSION,
            subject: ParticipantId(10),
            authority: digest(8),
            revoked: false,
        },
        single_use,
        consumed_at,
    }
}

fn settle(resolution: UncertaintyResolution) -> ResolveAuthorizedEffect {
    ResolveAuthorizedEffect {
        caller: OTHER,
        session_id: SESSION,
        participant_id: ParticipantId(10),
        operation_id: OperationId(20),
        owner_epoch: FencingEpoch(4),
        expected_effect_revision: Revision(1),
        resolution,
    }
}

fn settle_facts() -> ResolutionFacts {
    ResolutionFacts {
        effect: Some(entry(EffectPhase::Uncertain)),
        operation: Some(operation(OperationState::Uncertain)),
        grant: Some(grant(true, None)),
        authorized: true,
        proof_allowed: true,
    }
}

#[test]
fn classes_and_phases_are_named_and_read_back() {
    for class in [
        EffectClass::ReadOnly,
        EffectClass::Idempotent,
        EffectClass::Transactional,
        EffectClass::NonIdempotent,
        EffectClass::Unknown,
    ] {
        assert_eq!(parse_effect_class(effect_class_name(class)), Ok(class));
    }
    for phase in [
        EffectPhase::Reserved,
        EffectPhase::Started,
        EffectPhase::Uncertain,
        EffectPhase::Completed,
        EffectPhase::Failed,
        EffectPhase::RetryAuthorized,
    ] {
        assert_eq!(parse_effect_phase(effect_phase_name(phase)), Ok(phase));
    }
    assert_eq!(parse_effect_class("harmless"), Err(StoreError::Corrupt));
    assert_eq!(parse_effect_phase("retry"), Err(StoreError::Corrupt));
    assert_eq!(resolution_name(UncertaintyResolution::DoNotRetry), "do_not_retry");
}

#[test]
fn leases_of_effects_are_bounded() {
    assert_eq!(lease_millis(1_999_999, 5), Some(1));
    assert_eq!(lease_millis(999_999, 5), Some(0));
    assert_eq!(lease_millis(0, 5), None);
    assert_eq!(lease_millis(6_000_000, 5), None);
    assert_eq!(admit_effect(true, 5_000_000, 5), Ok(5));
    assert_eq!(admit_effect(true, 0, 5), Err(StoreError::LeaseTooLong));
    assert_eq!(admit_effect(false, 0, 5), Err(StoreError::Invalid));
}

#[test]
fn effects_are_reserved_for_working_operations() {
    let running = Some(operation(OperationState::Running));
    let reserve = |operation, existing| {
        reserve_effect(wish(), Some(participant()), operation, existing, at(100))
    };
    assert_eq!(
        reserve(running, None),
        Ok(EffectPlan::Create(entry(EffectPhase::Reserved)))
    );
    assert_eq!(
        reserve_effect(wish(), None, running, None, at(100)),
        Err(StoreError::ParticipantNotFound { participant_id: ParticipantId(10) })
    );
    assert_eq!(
        reserve(None, None),
        Err(StoreError::OperationNotFound { operation_id: OperationId(20) })
    );
    assert_eq!(
        reserve(Some(operation(OperationState::Cancelling)), None),
        Err(StoreError::Invalid)
    );
    let started = entry(EffectPhase::Started);
    assert_eq!(reserve(running, Some(started)), Ok(EffectPlan::Unchanged(started)));
    assert_eq!(
        reserve_effect(wish(), Some(participant()), running, Some(started), at(110)),
        Ok(EffectPlan::Update(EffectEntry {
            phase: EffectPhase::Uncertain,
            revision: Revision(2),
            ..started
        }))
    );
    let other = EffectEntry { semantic_digest: digest(9), ..started };
    assert_eq!(
        reserve(running, Some(other)),
        Err(StoreError::RequestConflict { request_id: RequestId(1) })
    );
}

#[test]
fn effects_start_within_their_lease_and_are_reported_once() {
    let reserved = entry(EffectPhase::Reserved);
    let started = transition_effect(Some(reserved), report(1, None), at(109)).unwrap();
    assert_eq!(started.phase, EffectPhase::Started);
    assert_eq!(started.revision, Revision(2));
    assert_eq!(
        transition_effect(Some(reserved), report(1, None), at(110)),
        Err(StoreError::Invalid)
    );
    let done = transition_effect(
        Some(started),
        report(2, Some(EffectResolution::Completed(digest(9)))),
        at(200),
    )
    .unwrap();
    assert_eq!(done.terminal, Some(EffectTerminal::Completed(Some(digest(9)))));
    for resolution in [
        None,
        Some(EffectResolution::Uncertain),
        Some(EffectResolution::Failed(digest(1))),
    ] {
        assert_eq!(
            transition_effect(Some(done), report(3, resolution), at(105)),
            Err(StoreError::Invalid)
        );
    }
    let failed = transition_effect(
        Some(started),
        report(2, Some(EffectResolution::Failed(digest(9)))),
        at(200),
    )
    .unwrap();
    assert_eq!(
        failed.terminal,
        Some(EffectTerminal::Failed(EffectFailure::Reported(digest(9))))
    );
    assert_eq!(
        transition_effect(
            Some(started),
            EffectTransition { caller: OTHER, ..report(2, Some(EffectResolution::Uncertain)) },
            at(105)
        ),
        Err(StoreError::Invalid)
    );
    assert_eq!(transition_effect(None, report(1, None), at(100)), Err(StoreError::Invalid));
    let last = EffectEntry { revision: Revision(u64::MAX), ..reserved };
    assert_eq!(
        transition_effect(Some(last), report(u64::MAX, None), at(100)),
        Err(StoreError::Corrupt)
    );
}

#[test]
fn a_takeover_never_starts_an_effect_again() {
    let command = TakeoverEffect {
        caller: OTHER,
        owner_epoch: FencingEpoch(4),
        expected_revision: Revision(1),
        lease_millis: 5_000,
    };
    let taken = takeover_effect(Some(entry(EffectPhase::Reserved)), command, at(110)).unwrap();
    assert_eq!((taken.owner_host, taken.owner_epoch), (OTHER, FencingEpoch(4)));
    assert_eq!(taken.lease_expires_at, at(115));
    assert_eq!(taken.phase, EffectPhase::Reserved);
    assert_eq!(
        transition_effect(Some(taken), report(2, None), at(111)),
        Err(StoreError::Invalid)
    );
    let lost = takeover_effect(Some(entry(EffectPhase::Started)), command, at(110)).unwrap();
    assert_eq!(lost.phase, EffectPhase::Uncertain);
    assert_eq!(lost.owner_host, ME);
    assert_eq!(
        takeover_effect(Some(entry(EffectPhase::Reserved)), command, at(109)),
        Err(StoreError::Invalid)
    );
    assert_eq!(
        takeover_effect(Some(entry(EffectPhase::Uncertain)), command, at(110)),
        Err(StoreError::Invalid)
    );
    assert_eq!(takeover_effect(None, command, at(110)), Err(StoreError::Invalid));
}

#[test]
fn uncertain_effects_are_settled_with_authority() {
    let retry = settle(UncertaintyResolution::RetryWithEffectProof);
    let again = resolve_authorized_effect(retry, settle_facts(), at(120)).unwrap();
    assert_eq!(again.effect.phase, EffectPhase::RetryAuthorized);
    assert_eq!(again.effect.owner_host, OTHER);
    assert_eq!(again.effect.lease_expires_at, at(130));
    assert_eq!(again.grant, Some(grant(true, Some(at(120)))));
    let stop = settle(UncertaintyResolution::DoNotRetry);
    let stopped = resolve_authorized_effect(stop, settle_facts(), at(120)).unwrap();
    assert_eq!(
        stopped.effect.terminal,
        Some(EffectTerminal::Failed(EffectFailure::DoNotRetry))
    );
    assert_eq!(EffectFailure::DoNotRetry.text(), Some("effect.do_not_retry"));
    assert_eq!(EffectFailure::Tool(ToolFailureKind::TimedOut).text(), Some("timedout"));
    let confirm = settle(UncertaintyResolution::ConfirmCompleted);
    let confirmed = resolve_authorized_effect(
        confirm,
        ResolutionFacts { grant: Some(grant(false, None)), ..settle_facts() },
        at(120),
    )
    .unwrap();
    assert_eq!(confirmed.effect.terminal, Some(EffectTerminal::Completed(None)));
    assert_eq!(confirmed.grant, None);
    for wrong in [
        ResolutionFacts { effect: None, ..settle_facts() },
        ResolutionFacts { effect: Some(entry(EffectPhase::Started)), ..settle_facts() },
        ResolutionFacts { operation: Some(operation(OperationState::Running)), ..settle_facts() },
        ResolutionFacts { grant: None, ..settle_facts() },
        ResolutionFacts { grant: Some(grant(true, Some(at(1)))), ..settle_facts() },
        ResolutionFacts { authorized: false, ..settle_facts() },
        ResolutionFacts { proof_allowed: false, ..settle_facts() },
    ] {
        assert_eq!(
            resolve_authorized_effect(retry, wrong, at(120)),
            Err(StoreError::Invalid)
        );
    }
    let requested = resolution_authority(OperationId(20));
    assert_eq!(requested.capability, StoreCapability::ResolveUncertainty);
    assert_eq!(requested.scope, ResourceScope::Operation(OperationId(20)));
}

#[test]
fn resolutions_stand_when_they_are_asked_for_again() {
    let stop = settle(UncertaintyResolution::DoNotRetry);
    let stopped = resolve_authorized_effect(stop, settle_facts(), at(120)).unwrap().effect;
    let check = |command, current| {
        validate_authorized_effect_replay(
            command,
            RequestId(1),
            stopped,
            operation(OperationState::Uncertain),
            current,
        )
    };
    assert_eq!(check(stop, Some(stopped)), Ok(()));
    assert_eq!(check(stop, None), Err(StoreError::Corrupt));
    assert_eq!(
        check(settle(UncertaintyResolution::ConfirmCompleted), Some(stopped)),
        Err(StoreError::Corrupt)
    );
}

#[test]
fn effects_are_read_with_their_end() {
    let open = entry(EffectPhase::Started);
    assert_eq!(decode_effect(open, true), Ok(open));
    assert_eq!(decode_effect(open, false), Err(StoreError::Corrupt));
    assert_eq!(decode_effect(entry(EffectPhase::Completed), true), Err(StoreError::Corrupt));
    let ended = EffectEntry {
        terminal: Some(EffectTerminal::Completed(None)),
        ..entry(EffectPhase::Completed)
    };
    assert_eq!(decode_effect(ended, true), Ok(ended));
    let running = Some(operation(OperationState::Running));
    assert_eq!(check_effect_linkage(open, Some(participant()), running), Ok(()));
    assert_eq!(check_effect_linkage(open, None, running), Err(StoreError::Corrupt));
    let foreign = ParticipantSnapshot { session_id: SessionId(2), ..participant() };
    assert_eq!(check_effect_linkage(open, Some(foreign), running), Err(StoreError::Corrupt));
}
