//! The names under which values are kept and told.

use crate::approval::{
    approval_action_name, approval_action_names_are_distinct, approval_action_text,
    approval_effect_phase, approval_event_name, approval_event_text,
    approval_event_types_are_distinct, approval_phase_names_are_distinct, approval_status_name,
    approval_status_names_are_distinct, status_text, use_phase_text, ApprovalAction,
    ApprovalEffectPhase, ApprovalStatus,
};
use crate::artifact::{
    artifact_state_name, artifact_state_names_are_distinct, artifact_text, parse_artifact_state,
    ArtifactState,
};
use crate::authority::{
    authority_event_name, capability_name, capability_names_are_distinct, capability_text,
    StoreCapability,
};
use crate::effect::{
    class_text, effect_class_name, effect_class_names_are_distinct, effect_phase_name,
    effect_phase_names_are_distinct, parse_effect_class, parse_effect_phase, phase_text,
    resolution_name, resolution_names_are_distinct, resolution_text, EffectClass, EffectPhase,
    UncertaintyResolution,
};
use crate::error::StoreError;
use crate::launch::{
    launch_state_name, launch_state_names_are_distinct, launch_text, parse_launch_state,
    LaunchState,
};
use crate::ledger::{action_name, action_names_are_distinct, action_text, parse_action, StoreAction};
use crate::mailbox::{priority_column, MessagePriority};
use crate::operation::{
    operation_state_name, operation_state_names_are_distinct, outcome_names_are_distinct,
    outcome_text, parse_operation_state, state_text, terminal_outcome_name, OperationState,
    OutcomeKind,
};
use crate::projection::ProjectionView;
use crate::tool::{tool_event_name, ToolTransition};
use vstd::prelude::*;

verus! {

/// Each status of an approval has its own name.
pub proof fn approval_statuses_are_named(
    value: ApprovalStatus,
    name: &'static str,
)
    requires
        call_ensures(approval_status_name, (value,), name),
    ensures
        value is Pending <==> name@ == "pending"@,
        value is Granted <==> name@ == "granted"@,
        value is Denied <==> name@ == "denied"@,
        value is Expired <==> name@ == "expired"@,
        value is Revoked <==> name@ == "revoked"@,
        value is Consumed <==> name@ == "consumed"@,
{
    if name@ == "pending"@ {
        approval_status_names_are_distinct(value, ApprovalStatus::Pending);
    }
    if name@ == "granted"@ {
        approval_status_names_are_distinct(value, ApprovalStatus::Granted);
    }
    if name@ == "denied"@ {
        approval_status_names_are_distinct(value, ApprovalStatus::Denied);
    }
    if name@ == "expired"@ {
        approval_status_names_are_distinct(value, ApprovalStatus::Expired);
    }
    if name@ == "revoked"@ {
        approval_status_names_are_distinct(value, ApprovalStatus::Revoked);
    }
    if name@ == "consumed"@ {
        approval_status_names_are_distinct(value, ApprovalStatus::Consumed);
    }
}

/// Each phase in which leave is used has its own name.
pub proof fn uses_of_leave_are_named(
    value: ApprovalEffectPhase,
    name: &'static str,
)
    requires
        call_ensures(approval_effect_phase, (value,), name),
    ensures
        value is Reserved <==> name@ == "reserved"@,
        value is Succeeded <==> name@ == "succeeded"@,
        value is Failed <==> name@ == "failed"@,
        value is Uncertain <==> name@ == "uncertain"@,
{
    if name@ == "reserved"@ {
        approval_phase_names_are_distinct(value, ApprovalEffectPhase::Reserved);
    }
    if name@ == "succeeded"@ {
        approval_phase_names_are_distinct(value, ApprovalEffectPhase::Succeeded);
    }
    if name@ == "failed"@ {
        approval_phase_names_are_distinct(value, ApprovalEffectPhase::Failed);
    }
    if name@ == "uncertain"@ {
        approval_phase_names_are_distinct(value, ApprovalEffectPhase::Uncertain);
    }
}

/// Each state of an artifact has its own name, and is read from that name only.
pub proof fn artifact_states_are_named(
    value: ArtifactState,
    name: &'static str,
    text: &str,
    result: Result<ArtifactState, StoreError>,
)
    requires
        call_ensures(artifact_state_name, (value,), name),
        call_ensures(parse_artifact_state, (text,), result),
    ensures
        value is Available <==> name@ == "available"@,
        value is LogicallyDeleted <==> name@ == "logically_deleted"@,
        value is PhysicallyErased <==> name@ == "physically_erased"@,
        (result matches Ok(ArtifactState::Available)) <==> text@ == "available"@,
        (result matches Ok(ArtifactState::LogicallyDeleted)) <==> text@ == "logically_deleted"@,
        (result matches Ok(ArtifactState::PhysicallyErased)) <==> text@ == "physically_erased"@,
        result matches Err(error) ==> error == StoreError::Corrupt,
{
    if name@ == "available"@ {
        artifact_state_names_are_distinct(value, ArtifactState::Available);
    }
    if name@ == "logically_deleted"@ {
        artifact_state_names_are_distinct(value, ArtifactState::LogicallyDeleted);
    }
    if name@ == "physically_erased"@ {
        artifact_state_names_are_distinct(value, ArtifactState::PhysicallyErased);
    }
    if text@ == "available"@ {
        assert(artifact_text(ArtifactState::Available) == text@);
        if result is Ok {
            artifact_state_names_are_distinct(result->Ok_0, ArtifactState::Available);
        }
    }
    if text@ == "logically_deleted"@ {
        assert(artifact_text(ArtifactState::LogicallyDeleted) == text@);
        if result is Ok {
            artifact_state_names_are_distinct(result->Ok_0, ArtifactState::LogicallyDeleted);
        }
    }
    if text@ == "physically_erased"@ {
        assert(artifact_text(ArtifactState::PhysicallyErased) == text@);
        if result is Ok {
            artifact_state_names_are_distinct(result->Ok_0, ArtifactState::PhysicallyErased);
        }
    }
}

/// Each capability has its own name.
pub proof fn capabilities_are_named(
    value: StoreCapability,
    name: &'static str,
)
    requires
        call_ensures(capability_name, (value,), name),
    ensures
        value is MessageQuestion <==> name@ == "message.question"@,
        value is MessageSend <==> name@ == "message.send"@,
        value is MessageOutcome <==> name@ == "message.outcome"@,
        value is OperationCancel <==> name@ == "operation.cancel"@,
        value is OperationResume <==> name@ == "operation.resume"@,
        value is ParticipantStatus <==> name@ == "participant.status"@,
        value is ResolveUncertainty <==> name@ == "effect.resolve_uncertainty"@,
{
    if name@ == "message.question"@ {
        capability_names_are_distinct(value, StoreCapability::MessageQuestion);
    }
    if name@ == "message.send"@ {
        capability_names_are_distinct(value, StoreCapability::MessageSend);
    }
    if name@ == "message.outcome"@ {
        capability_names_are_distinct(value, StoreCapability::MessageOutcome);
    }
    if name@ == "operation.cancel"@ {
        capability_names_are_distinct(value, StoreCapability::OperationCancel);
    }
    if name@ == "operation.resume"@ {
        capability_names_are_distinct(value, StoreCapability::OperationResume);
    }
    if name@ == "participant.status"@ {
        capability_names_are_distinct(value, StoreCapability::ParticipantStatus);
    }
    if name@ == "effect.resolve_uncertainty"@ {
        capability_names_are_distinct(value, StoreCapability::ResolveUncertainty);
    }
}

/// Each class of effects has its own name, and is read from that name only.
pub proof fn effect_classes_are_named(
    value: EffectClass,
    name: &'static str,
    text: &str,
    result: Result<EffectClass, StoreError>,
)
    requires
        call_ensures(effect_class_name, (value,), name),
        call_ensures(parse_effect_class, (text,), result),
    ensures
        value is ReadOnly <==> name@ == "read_only"@,
        value is Idempotent <==> name@ == "idempotent"@,
        value is Transactional <==> name@ == "transactional"@,
        value is NonIdempotent <==> name@ == "non_idempotent"@,
        value is Unknown <==> name@ == "unknown"@,
        (result matches Ok(EffectClass::ReadOnly)) <==> text@ == "read_only"@,
        (result matches Ok(EffectClass::Idempotent)) <==> text@ == "idempotent"@,
        (result matches Ok(EffectClass::Transactional)) <==> text@ == "transactional"@,
        (result matches Ok(EffectClass::NonIdempotent)) <==> text@ == "non_idempotent"@,
        (result matches Ok(EffectClass::Unknown)) <==> text@ == "unknown"@,
        result matches Err(error) ==> error == StoreError::Corrupt,
{
    if name@ == "read_only"@ {
        effect_class_names_are_distinct(value, EffectClass::ReadOnly);
    }
    if name@ == "idempotent"@ {
        effect_class_names_are_distinct(value, EffectClass::Idempotent);
    }
    if name@ == "transactional"@ {
        effect_class_names_are_distinct(value, EffectClass::Transactional);
    }
    if name@ == "non_idempotent"@ {
        effect_class_names_are_distinct(value, EffectClass::NonIdempotent);
    }
    if name@ == "unknown"@ {
        effect_class_names_are_distinct(value, EffectClass::Unknown);
    }
    if text@ == "read_only"@ {
        assert(class_text(EffectClass::ReadOnly) == text@);
        if result is Ok {
            effect_class_names_are_distinct(result->Ok_0, EffectClass::ReadOnly);
        }
    }
    if text@ == "idempotent"@ {
        assert(class_text(EffectClass::Idempotent) == text@);
        if result is Ok {
            effect_class_names_are_distinct(result->Ok_0, EffectClass::Idempotent);
        }
    }
    if text@ == "transactional"@ {
        assert(class_text(EffectClass::Transactional) == text@);
        if result is Ok {
            effect_class_names_are_distinct(result->Ok_0, EffectClass::Transactional);
        }
    }
    if text@ == "non_idempotent"@ {
        assert(class_text(EffectClass::NonIdempotent) == text@);
        if result is Ok {
            effect_class_names_are_distinct(result->Ok_0, EffectClass::NonIdempotent);
        }
    }
    if text@ == "unknown"@ {
        assert(class_text(EffectClass::Unknown) == text@);
        if result is Ok {
            effect_class_names_are_distinct(result->Ok_0, EffectClass::Unknown);
        }
    }
}

/// Each phase of an effect has its own name, and is read from that name only.
pub proof fn effect_phases_are_named(
    value: EffectPhase,
    name: &'static str,
    text: &str,
    result: Result<EffectPhase, StoreError>,
)
    requires
        call_ensures(effect_phase_name, (value,), name),
        call_ensures(parse_effect_phase, (text,), result),
    ensures
        value is Reserved <==> name@ == "reserved"@,
        value is Started <==> name@ == "started"@,
        value is Uncertain <==> name@ == "uncertain"@,
        value is Completed <==> name@ == "completed"@,
        value is Failed <==> name@ == "failed"@,
        value is RetryAuthorized <==> name@ == "retry_authorized"@,
        (result matches Ok(EffectPhase::Reserved)) <==> text@ == "reserved"@,
        (result matches Ok(EffectPhase::Started)) <==> text@ == "started"@,
        (result matches Ok(EffectPhase::Uncertain)) <==> text@ == "uncertain"@,
        (result matches Ok(EffectPhase::Completed)) <==> text@ == "completed"@,
        (result matches Ok(EffectPhase::Failed)) <==> text@ == "failed"@,
        (result matches Ok(EffectPhase::RetryAuthorized)) <==> text@ == "retry_authorized"@,
        result matches Err(error) ==> error == StoreError::Corrupt,
{
    if name@ == "reserved"@ {
        effect_phase_names_are_distinct(value, EffectPhase::Reserved);
    }
    if name@ == "started"@ {
        effect_phase_names_are_distinct(value, EffectPhase::Started);
    }
    if name@ == "uncertain"@ {
        effect_phase_names_are_distinct(value, EffectPhase::Uncertain);
    }
    if name@ == "completed"@ {
        effect_phase_names_are_distinct(value, EffectPhase::Completed);
    }
    if name@ == "failed"@ {
        effect_phase_names_are_distinct(value, EffectPhase::Failed);
    }
    if name@ == "retry_authorized"@ {
        effect_phase_names_are_distinct(value, EffectPhase::RetryAuthorized);
    }
    if text@ == "reserved"@ {
        assert(phase_text(EffectPhase::Reserved) == text@);
        if result is Ok {
            effect_phase_names_are_distinct(result->Ok_0, EffectPhase::Reserved);
        }
    }
    if text@ == "started"@ {
        assert(phase_text(EffectPhase::Started) == text@);
        if result is Ok {
            effect_phase_names_are_distinct(result->Ok_0, EffectPhase::Started);
        }
    }
    if text@ == "uncertain"@ {
        assert(phase_text(EffectPhase::Uncertain) == text@);
        if result is Ok {
            effect_phase_names_are_distinct(result->Ok_0, EffectPhase::Uncertain);
        }
    }
    if text@ == "completed"@ {
        assert(phase_text(EffectPhase::Completed) == text@);
        if result is Ok {
            effect_phase_names_are_distinct(result->Ok_0, EffectPhase::Completed);
        }
    }
    if text@ == "failed"@ {
        assert(phase_text(EffectPhase::Failed) == text@);
        if result is Ok {
            effect_phase_names_are_distinct(result->Ok_0, EffectPhase::Failed);
        }
    }
    if text@ == "retry_authorized"@ {
        assert(phase_text(EffectPhase::RetryAuthorized) == text@);
        if result is Ok {
            effect_phase_names_are_distinct(result->Ok_0, EffectPhase::RetryAuthorized);
        }
    }
}

/// Each way to settle an uncertain effect has its own name.
pub proof fn resolutions_are_named(
    value: UncertaintyResolution,
    name: &'static str,
)
    requires
        call_ensures(resolution_name, (value,), name),
    ensures
        value is ConfirmCompleted <==> name@ == "confirm_completed"@,
        value is DoNotRetry <==> name@ == "do_not_retry"@,
        value is RetryWithEffectProof <==> name@ == "retry_with_effect_proof"@,
{
    if name@ == "confirm_completed"@ {
        resolution_names_are_distinct(value, UncertaintyResolution::ConfirmCompleted);
    }
    if name@ == "do_not_retry"@ {
        resolution_names_are_distinct(value, UncertaintyResolution::DoNotRetry);
    }
    if name@ == "retry_with_effect_proof"@ {
        resolution_names_are_distinct(value, UncertaintyResolution::RetryWithEffectProof);
    }
}

/// Each state of a launch has its own name, and is read from that name only.
pub proof fn launch_states_are_named(
    value: LaunchState,
    name: &'static str,
    text: &str,
    result: Result<LaunchState, StoreError>,
)
    requires
        call_ensures(launch_state_name, (value,), name),
        call_ensures(parse_launch_state, (text,), result),
    ensures
        value is Prepared <==> name@ == "prepared"@,
        value is Attached <==> name@ == "attached"@,
        value is Ready <==> name@ == "ready"@,
        value is Stopping <==> name@ == "stopping"@,
        value is Stopped <==> name@ == "stopped"@,
        value is CleanupRequired <==> name@ == "cleanup_required"@,
        (result matches Ok(LaunchState::Prepared)) <==> text@ == "prepared"@,
        (result matches Ok(LaunchState::Attached)) <==> text@ == "attached"@,
        (result matches Ok(LaunchState::Ready)) <==> text@ == "ready"@,
        (result matches Ok(LaunchState::Stopping)) <==> text@ == "stopping"@,
        (result matches Ok(LaunchState::Stopped)) <==> text@ == "stopped"@,
        (result matches Ok(LaunchState::CleanupRequired)) <==> text@ == "cleanup_required"@,
        result matches Err(error) ==> error == StoreError::Corrupt,
{
    if name@ == "prepared"@ {
        launch_state_names_are_distinct(value, LaunchState::Prepared);
    }
    if name@ == "attached"@ {
        launch_state_names_are_distinct(value, LaunchState::Attached);
    }
    if name@ == "ready"@ {
        launch_state_names_are_distinct(value, LaunchState::Ready);
    }
    if name@ == "stopping"@ {
        launch_state_names_are_distinct(value, LaunchState::Stopping);
    }
    if name@ == "stopped"@ {
        launch_state_names_are_distinct(value, LaunchState::Stopped);
    }
    if name@ == "cleanup_required"@ {
        launch_state_names_are_distinct(value, LaunchState::CleanupRequired);
    }
    if text@ == "prepared"@ {
        assert(launch_text(LaunchState::Prepared) == text@);
        if result is Ok {
            launch_state_names_are_distinct(result->Ok_0, LaunchState::Prepared);
        }
    }
    if text@ == "attached"@ {
        assert(launch_text(LaunchState::Attached) == text@);
        if result is Ok {
            launch_state_names_are_distinct(result->Ok_0, LaunchState::Attached);
        }
    }
    if text@ == "ready"@ {
        assert(launch_text(LaunchState::Ready) == text@);
        if result is Ok {
            launch_state_names_are_distinct(result->Ok_0, LaunchState::Ready);
        }
    }
    if text@ == "stopping"@ {
        assert(launch_text(LaunchState::Stopping) == text@);
        if result is Ok {
            launch_state_names_are_distinct(result->Ok_0, LaunchState::Stopping);
        }
    }
    if text@ == "stopped"@ {
        assert(launch_text(LaunchState::Stopped) == text@);
        if result is Ok {
            launch_state_names_are_distinct(result->Ok_0, LaunchState::Stopped);
        }
    }
    if text@ == "cleanup_required"@ {
        assert(launch_text(LaunchState::CleanupRequired) == text@);
        if result is Ok {
            launch_state_names_are_distinct(result->Ok_0, LaunchState::CleanupRequired);
        }
    }
}

/// Each action of the store has its own name, and is read from that name only.
pub proof fn actions_are_named(
    value: StoreAction,
    name: &'static str,
    text: &str,
    result: Result<StoreAction, StoreError>,
)
    requires
        call_ensures(action_name, (value,), name),
        call_ensures(parse_action, (text,), result),
    ensures
        value is OpenSession <==> name@ == "session.open"@,
        value is CloseSession <==> name@ == "session.close"@,
        value is AcquireOwnership <==> name@ == "ownership.acquire"@,
        value is RenewOwnership <==> name@ == "ownership.renew"@,
        value is ReleaseOwnership <==> name@ == "ownership.release"@,
        value is PrepareLaunch <==> name@ == "instance.prepare_launch"@,
        value is AttachLaunch <==> name@ == "instance.attach_launch"@,
        value is TransitionLaunch <==> name@ == "instance.transition_launch"@,
        value is CreateRootParticipant <==> name@ == "participant.create_root"@,
        value is CreateChildParticipant <==> name@ == "participant.create_child"@,
        value is StartOperation <==> name@ == "operation.start"@,
        value is TransitionOperation <==> name@ == "operation.transition"@,
        value is EnqueueMessage <==> name@ == "message.enqueue"@,
        value is LeaseNextMessage <==> name@ == "message.lease_next"@,
        value is TransitionMessageDelivery <==> name@ == "message.transition_delivery"@,
        value is PutAuthorityPolicy <==> name@ == "authority.put_policy"@,
        value is IssueGrant <==> name@ == "authority.issue_grant"@,
        value is RevokeGrant <==> name@ == "authority.revoke_grant"@,
        value is CheckAuthorityEffect <==> name@ == "authority.check_effect"@,
        value is CreateAuthorizedChild <==> name@ == "authority.create_child"@,
        value is ApplyHierarchyEffect <==> name@ == "hierarchy.apply_effect"@,
        value is RegisterAuthorityTemplatePolicy <==> name@ == "authority.register_template_policy"@,
        (result matches Ok(StoreAction::OpenSession)) <==> text@ == "session.open"@,
        (result matches Ok(StoreAction::CloseSession)) <==> text@ == "session.close"@,
        (result matches Ok(StoreAction::AcquireOwnership)) <==> text@ == "ownership.acquire"@,
        (result matches Ok(StoreAction::RenewOwnership)) <==> text@ == "ownership.renew"@,
        (result matches Ok(StoreAction::ReleaseOwnership)) <==> text@ == "ownership.release"@,
        (result matches Ok(StoreAction::PrepareLaunch)) <==> text@ == "instance.prepare_launch"@,
        (result matches Ok(StoreAction::AttachLaunch)) <==> text@ == "instance.attach_launch"@,
        (result matches Ok(StoreAction::TransitionLaunch)) <==> text@ == "instance.transition_launch"@,
        (result matches Ok(StoreAction::CreateRootParticipant)) <==> text@ == "participant.create_root"@,
        (result matches Ok(StoreAction::CreateChildParticipant)) <==> text@ == "participant.create_child"@,
        (result matches Ok(StoreAction::StartOperation)) <==> text@ == "operation.start"@,
        (result matches Ok(StoreAction::TransitionOperation)) <==> text@ == "operation.transition"@,
        (result matches Ok(StoreAction::EnqueueMessage)) <==> text@ == "message.enqueue"@,
        (result matches Ok(StoreAction::LeaseNextMessage)) <==> text@ == "message.lease_next"@,
        (result matches Ok(StoreAction::TransitionMessageDelivery)) <==> text@ == "message.transition_delivery"@,
        (result matches Ok(StoreAction::PutAuthorityPolicy)) <==> text@ == "authority.put_policy"@,
        (result matches Ok(StoreAction::IssueGrant)) <==> text@ == "authority.issue_grant"@,
        (result matches Ok(StoreAction::RevokeGrant)) <==> text@ == "authority.revoke_grant"@,
        (result matches Ok(StoreAction::CheckAuthorityEffect)) <==> text@ == "authority.check_effect"@,
        (result matches Ok(StoreAction::CreateAuthorizedChild)) <==> text@ == "authority.create_child"@,
        (result matches Ok(StoreAction::ApplyHierarchyEffect)) <==> text@ == "hierarchy.apply_effect"@,
        (result matches Ok(StoreAction::RegisterAuthorityTemplatePolicy)) <==> text@ == "authority.register_template_policy"@,
        result matches Err(error) ==> error == StoreError::Corrupt,
{
    if name@ == "session.open"@ {
        action_names_are_distinct(value, StoreAction::OpenSession);
    }
    if name@ == "session.close"@ {
        action_names_are_distinct(value, StoreAction::CloseSession);
    }
    if name@ == "ownership.acquire"@ {
        action_names_are_distinct(value, StoreAction::AcquireOwnership);
    }
    if name@ == "ownership.renew"@ {
        action_names_are_distinct(value, StoreAction::RenewOwnership);
    }
    if name@ == "ownership.release"@ {
        action_names_are_distinct(value, StoreAction::ReleaseOwnership);
    }
    if name@ == "instance.prepare_launch"@ {
        action_names_are_distinct(value, StoreAction::PrepareLaunch);
    }
    if name@ == "instance.attach_launch"@ {
        action_names_are_distinct(value, StoreAction::AttachLaunch);
    }
    if name@ == "instance.transition_launch"@ {
        action_names_are_distinct(value, StoreAction::TransitionLaunch);
    }
    if name@ == "participant.create_root"@ {
        action_names_are_distinct(value, StoreAction::CreateRootParticipant);
    }
    if name@ == "participant.create_child"@ {
        action_names_are_distinct(value, StoreAction::CreateChildParticipant);
    }
    if name@ == "operation.start"@ {
        action_names_are_distinct(value, StoreAction::StartOperation);
    }
    if name@ == "operation.transition"@ {
        action_names_are_distinct(value, StoreAction::TransitionOperation);
    }
    if name@ == "message.enqueue"@ {
        action_names_are_distinct(value, StoreAction::EnqueueMessage);
    }
    if name@ == "message.lease_next"@ {
        action_names_are_distinct(value, StoreAction::LeaseNextMessage);
    }
    if name@ == "message.transition_delivery"@ {
        action_names_are_distinct(value, StoreAction::TransitionMessageDelivery);
    }
    if name@ == "authority.put_policy"@ {
        action_names_are_distinct(value, StoreAction::PutAuthorityPolicy);
    }
    if name@ == "authority.issue_grant"@ {
        action_names_are_distinct(value, StoreAction::IssueGrant);
    }
    if name@ == "authority.revoke_grant"@ {
        action_names_are_distinct(value, StoreAction::RevokeGrant);
    }
    if name@ == "authority.check_effect"@ {
        action_names_are_distinct(value, StoreAction::CheckAuthorityEffect);
    }
    if name@ == "authority.create_child"@ {
        action_names_are_distinct(value, StoreAction::CreateAuthorizedChild);
    }
    if name@ == "hierarchy.apply_effect"@ {
        action_names_are_distinct(value, StoreAction::ApplyHierarchyEffect);
    }
    if name@ == "authority.register_template_policy"@ {
        action_names_are_distinct(value, StoreAction::RegisterAuthorityTemplatePolicy);
    }
    if text@ == "session.open"@ {
        assert(action_text(StoreAction::OpenSession) == text@);
        if result is Ok {
            action_names_are_distinct(result->Ok_0, StoreAction::OpenSession);
        }
    }
    if text@ == "session.close"@ {
        assert(action_text(StoreAction::CloseSession) == text@);
        if result is Ok {
            action_names_are_distinct(result->Ok_0, StoreAction::CloseSession);
        }
    }
    if text@ == "ownership.acquire"@ {
        assert(action_text(StoreAction::AcquireOwnership) == text@);
        if result is Ok {
            action_names_are_distinct(result->Ok_0, StoreAction::AcquireOwnership);
        }
    }
    if text@ == "ownership.renew"@ {
        assert(action_text(StoreAction::RenewOwnership) == text@);
        if result is Ok {
            action_names_are_distinct(result->Ok_0, StoreAction::RenewOwnership);
        }
    }
    if text@ == "ownership.release"@ {
        assert(action_text(StoreAction::ReleaseOwnership) == text@);
        if result is Ok {
            action_names_are_distinct(result->Ok_0, StoreAction::ReleaseOwnership);
        }
    }
    if text@ == "instance.prepare_launch"@ {
        assert(action_text(StoreAction::PrepareLaunch) == text@);
        if result is Ok {
            action_names_are_distinct(result->Ok_0, StoreAction::PrepareLaunch);
        }
    }
    if text@ == "instance.attach_launch"@ {
        assert(action_text(StoreAction::AttachLaunch) == text@);
        if result is Ok {
            action_names_are_distinct(result->Ok_0, StoreAction::AttachLaunch);
        }
    }
    if text@ == "instance.transition_launch"@ {
        assert(action_text(StoreAction::TransitionLaunch) == text@);
        if result is Ok {
            action_names_are_distinct(result->Ok_0, StoreAction::TransitionLaunch);
        }
    }
    if text@ == "participant.create_root"@ {
        assert(action_text(StoreAction::CreateRootParticipant) == text@);
        if result is Ok {
            action_names_are_distinct(result->Ok_0, StoreAction::CreateRootParticipant);
        }
    }
    if text@ == "participant.create_child"@ {
        assert(action_text(StoreAction::CreateChildParticipant) == text@);
        if result is Ok {
            action_names_are_distinct(result->Ok_0, StoreAction::CreateChildParticipant);
        }
    }
    if text@ == "operation.start"@ {
        assert(action_text(StoreAction::StartOperation) == text@);
        if result is Ok {
            action_names_are_distinct(result->Ok_0, StoreAction::StartOperation);
        }
    }
    if text@ == "operation.transition"@ {
        assert(action_text(StoreAction::TransitionOperation) == text@);
        if result is Ok {
            action_names_are_distinct(result->Ok_0, StoreAction::TransitionOperation);
        }
    }
    if text@ == "message.enqueue"@ {
        assert(action_text(StoreAction::EnqueueMessage) == text@);
        if result is Ok {
            action_names_are_distinct(result->Ok_0, StoreAction::EnqueueMessage);
        }
    }
    if text@ == "message.lease_next"@ {
        assert(action_text(StoreAction::LeaseNextMessage) == text@);
        if result is Ok {
            action_names_are_distinct(result->Ok_0, StoreAction::LeaseNextMessage);
        }
    }
    if text@ == "message.transition_delivery"@ {
        assert(action_text(StoreAction::TransitionMessageDelivery) == text@);
        if result is Ok {
            action_names_are_distinct(result->Ok_0, StoreAction::TransitionMessageDelivery);
        }
    }
    if text@ == "authority.put_policy"@ {
        assert(action_text(StoreAction::PutAuthorityPolicy) == text@);
        if result is Ok {
            action_names_are_distinct(result->Ok_0, StoreAction::PutAuthorityPolicy);
        }
    }
    if text@ == "authority.issue_grant"@ {
        assert(action_text(StoreAction::IssueGrant) == text@);
        if result is Ok {
            action_names_are_distinct(result->Ok_0, StoreAction::IssueGrant);
        }
    }
    if text@ == "authority.revoke_grant"@ {
        assert(action_text(StoreAction::RevokeGrant) == text@);
        if result is Ok {
            action_names_are_distinct(result->Ok_0, StoreAction::RevokeGrant);
        }
    }
    if text@ == "authority.check_effect"@ {
        assert(action_text(StoreAction::CheckAuthorityEffect) == text@);
        if result is Ok {
            action_names_are_distinct(result->Ok_0, StoreAction::CheckAuthorityEffect);
        }
    }
    if text@ == "authority.create_child"@ {
        assert(action_text(StoreAction::CreateAuthorizedChild) == text@);
        if result is Ok {
            action_names_are_distinct(result->Ok_0, StoreAction::CreateAuthorizedChild);
        }
    }
    if text@ == "hierarchy.apply_effect"@ {
        assert(action_text(StoreAction::ApplyHierarchyEffect) == text@);
        if result is Ok {
            action_names_are_distinct(result->Ok_0, StoreAction::ApplyHierarchyEffect);
        }
    }
    if text@ == "authority.register_template_policy"@ {
        assert(action_text(StoreAction::RegisterAuthorityTemplatePolicy) == text@);
        if result is Ok {
            action_names_are_distinct(result->Ok_0, StoreAction::RegisterAuthorityTemplatePolicy);
        }
    }
}

/// Each state of an operation has its own name, and is read from that name only.
pub proof fn operation_states_are_named(
    value: OperationState,
    name: &'static str,
    text: &str,
    result: Result<OperationState, StoreError>,
)
    requires
        call_ensures(operation_state_name, (value,), name),
        call_ensures(parse_operation_state, (text,), result),
    ensures
        value is Queued <==> name@ == "queued"@,
        value is Starting <==> name@ == "starting"@,
        value is Running <==> name@ == "running"@,
        value is Waiting <==> name@ == "waiting"@,
        value is Cancelling <==> name@ == "cancelling"@,
        value is Succeeded <==> name@ == "succeeded"@,
        value is Failed <==> name@ == "failed"@,
        value is Cancelled <==> name@ == "cancelled"@,
        value is Blocked <==> name@ == "blocked"@,
        value is Uncertain <==> name@ == "uncertain"@,
        (result matches Ok(OperationState::Queued)) <==> text@ == "queued"@,
        (result matches Ok(OperationState::Starting)) <==> text@ == "starting"@,
        (result matches Ok(OperationState::Running)) <==> text@ == "running"@,
        (result matches Ok(OperationState::Waiting)) <==> text@ == "waiting"@,
        (result matches Ok(OperationState::Cancelling)) <==> text@ == "cancelling"@,
        (result matches Ok(OperationState::Succeeded)) <==> text@ == "succeeded"@,
        (result matches Ok(OperationState::Failed)) <==> text@ == "failed"@,
        (result matches Ok(OperationState::Cancelled)) <==> text@ == "cancelled"@,
        (result matches Ok(OperationState::Blocked)) <==> text@ == "blocked"@,
        (result matches Ok(OperationState::Uncertain)) <==> text@ == "uncertain"@,
        result matches Err(error) ==> error == StoreError::Corrupt,
{
    if name@ == "queued"@ {
        operation_state_names_are_distinct(value, OperationState::Queued);
    }
    if name@ == "starting"@ {
        operation_state_names_are_distinct(value, OperationState::Starting);
    }
    if name@ == "running"@ {
        operation_state_names_are_distinct(value, OperationState::Running);
    }
    if name@ == "waiting"@ {
        operation_state_names_are_distinct(value, OperationState::Waiting);
    }
    if name@ == "cancelling"@ {
        operation_state_names_are_distinct(value, OperationState::Cancelling);
    }
    if name@ == "succeeded"@ {
        operation_state_names_are_distinct(value, OperationState::Succeeded);
    }
    if name@ == "failed"@ {
        operation_state_names_are_distinct(value, OperationState::Failed);
    }
    if name@ == "cancelled"@ {
        operation_state_names_are_distinct(value, OperationState::Cancelled);
    }
    if name@ == "blocked"@ {
        operation_state_names_are_distinct(value, OperationState::Blocked);
    }
    if name@ == "uncertain"@ {
        operation_state_names_are_distinct(value, OperationState::Uncertain);
    }
    if text@ == "queued"@ {
        assert(state_text(OperationState::Queued) == text@);
        if result is Ok {
            operation_state_names_are_distinct(result->Ok_0, OperationState::Queued);
        }
    }
    if text@ == "starting"@ {
        assert(state_text(OperationState::Starting) == text@);
        if result is Ok {
            operation_state_names_are_distinct(result->Ok_0, OperationState::Starting);
        }
    }
    if text@ == "running"@ {
        assert(state_text(OperationState::Running) == text@);
        if result is Ok {
            operation_state_names_are_distinct(result->Ok_0, OperationState::Running);
        }
    }
    if text@ == "waiting"@ {
        assert(state_text(OperationState::Waiting) == text@);
        if result is Ok {
            operation_state_names_are_distinct(result->Ok_0, OperationState::Waiting);
        }
    }
    if text@ == "cancelling"@ {
        assert(state_text(OperationState::Cancelling) == text@);
        if result is Ok {
            operation_state_names_are_distinct(result->Ok_0, OperationState::Cancelling);
        }
    }
    if text@ == "succeeded"@ {
        assert(state_text(OperationState::Succeeded) == text@);
        if result is Ok {
            operation_state_names_are_distinct(result->Ok_0, OperationState::Succeeded);
        }
    }
    if text@ == "failed"@ {
        assert(state_text(OperationState::Failed) == text@);
        if result is Ok {
            operation_state_names_are_distinct(result->Ok_0, OperationState::Failed);
        }
    }
    if text@ == "cancelled"@ {
        assert(state_text(OperationState::Cancelled) == text@);
        if result is Ok {
            operation_state_names_are_distinct(result->Ok_0, OperationState::Cancelled);
        }
    }
    if text@ == "blocked"@ {
        assert(state_text(OperationState::Blocked) == text@);
        if result is Ok {
            operation_state_names_are_distinct(result->Ok_0, OperationState::Blocked);
        }
    }
    if text@ == "uncertain"@ {
        assert(state_text(OperationState::Uncertain) == text@);
        if result is Ok {
            operation_state_names_are_distinct(result->Ok_0, OperationState::Uncertain);
        }
    }
}

/// Each outcome of an operation has its own name.
pub proof fn outcomes_are_named(
    value: OutcomeKind,
    name: &'static str,
)
    requires
        call_ensures(terminal_outcome_name, (value,), name),
    ensures
        value is Succeeded <==> name@ == "succeeded"@,
        value is Failed <==> name@ == "failed"@,
        value is Cancelled <==> name@ == "cancelled"@,
        value is Blocked <==> name@ == "blocked"@,
        value is Uncertain <==> name@ == "uncertain"@,
{
    if name@ == "succeeded"@ {
        outcome_names_are_distinct(value, OutcomeKind::Succeeded);
    }
    if name@ == "failed"@ {
        outcome_names_are_distinct(value, OutcomeKind::Failed);
    }
    if name@ == "cancelled"@ {
        outcome_names_are_distinct(value, OutcomeKind::Cancelled);
    }
    if name@ == "blocked"@ {
        outcome_names_are_distinct(value, OutcomeKind::Blocked);
    }
    if name@ == "uncertain"@ {
        outcome_names_are_distinct(value, OutcomeKind::Uncertain);
    }
}

/// Each action on an approval has its own name.
pub proof fn approval_actions_are_named(
    value: ApprovalAction,
    name: &'static str,
)
    requires
        call_ensures(approval_action_name, (value,), name),
    ensures
        value is Request <==> name@ == "approval.request"@,
        value is Approve <==> name@ == "approval.approve"@,
        value is Deny <==> name@ == "approval.deny"@,
        value is Expire <==> name@ == "approval.expire"@,
        value is Revoke <==> name@ == "approval.revoke"@,
        value is Consume <==> name@ == "approval.consume"@,
        value is FinishEffect <==> name@ == "approval.effect.finish"@,
{
    if name@ == "approval.request"@ {
        approval_action_names_are_distinct(value, ApprovalAction::Request);
    }
    if name@ == "approval.approve"@ {
        approval_action_names_are_distinct(value, ApprovalAction::Approve);
    }
    if name@ == "approval.deny"@ {
        approval_action_names_are_distinct(value, ApprovalAction::Deny);
    }
    if name@ == "approval.expire"@ {
        approval_action_names_are_distinct(value, ApprovalAction::Expire);
    }
    if name@ == "approval.revoke"@ {
        approval_action_names_are_distinct(value, ApprovalAction::Revoke);
    }
    if name@ == "approval.consume"@ {
        approval_action_names_are_distinct(value, ApprovalAction::Consume);
    }
    if name@ == "approval.effect.finish"@ {
        approval_action_names_are_distinct(value, ApprovalAction::FinishEffect);
    }
}

/// Each action on an approval is told by an event of its own.
pub proof fn approval_events_are_named(
    value: ApprovalAction,
    name: &'static str,
)
    requires
        call_ensures(approval_event_name, (value,), name),
    ensures
        value is Request <==> name@ == "approval.requested"@,
        value is Approve <==> name@ == "approval.granted"@,
        value is Deny <==> name@ == "approval.denied"@,
        value is Expire <==> name@ == "approval.expired"@,
        value is Revoke <==> name@ == "approval.revoked"@,
        value is Consume <==> name@ == "approval.consumed"@,
        value is FinishEffect <==> name@ == "approval.effect.finished"@,
{
    if name@ == "approval.requested"@ {
        approval_event_types_are_distinct(value, ApprovalAction::Request);
    }
    if name@ == "approval.granted"@ {
        approval_event_types_are_distinct(value, ApprovalAction::Approve);
    }
    if name@ == "approval.denied"@ {
        approval_event_types_are_distinct(value, ApprovalAction::Deny);
    }
    if name@ == "approval.expired"@ {
        approval_event_types_are_distinct(value, ApprovalAction::Expire);
    }
    if name@ == "approval.revoked"@ {
        approval_event_types_are_distinct(value, ApprovalAction::Revoke);
    }
    if name@ == "approval.consumed"@ {
        approval_event_types_are_distinct(value, ApprovalAction::Consume);
    }
    if name@ == "approval.effect.finished"@ {
        approval_event_types_are_distinct(value, ApprovalAction::FinishEffect);
    }
}

/// What became of a check of authority, and of an invocation of a tool, is told by an event of its
/// own.
pub proof fn decisions_and_steps_are_told(
    allowed: bool,
    told: &'static str,
    transition: ToolTransition,
    name: &'static str,
)
    requires
        call_ensures(authority_event_name, (allowed,), told),
        call_ensures(tool_event_name, (transition,), name),
    ensures
        allowed ==> told@ == "authority.allowed"@,
        !allowed ==> told@ == "authority.denied"@,
        transition is Start ==> name@ == "tool.invocation_started"@,
        transition is Complete ==> name@ == "tool.invocation_completed"@,
        transition is Fail ==> name@ == "tool.invocation_failed"@,
        transition is MarkUncertain ==> name@ == "tool.invocation_uncertain"@,
        transition is RequestCancel ==> name@ == "tool.invocation_cancel_requested"@,
{
}

/// Each view has its own name.
pub proof fn views_are_named(view: ProjectionView, name: &'static str)
    requires
        call_ensures(ProjectionView::as_str, (view,), name),
    ensures
        view is SessionTree ==> name@ == "session_tree"@,
        view is ActiveWork ==> name@ == "active_work"@,
        view is Delivery ==> name@ == "delivery"@,
        view is Approval ==> name@ == "approval"@,
        view is Recovery ==> name@ == "recovery"@,
        view is Capacity ==> name@ == "capacity"@,
        view is Failure ==> name@ == "failure"@,
{
}

/// Messages that control come before the ordinary ones, also by their number.
pub proof fn control_comes_first(priority: MessagePriority, number: i64)
    requires
        call_ensures(priority_column, (priority,), number),
    ensures
        priority is Control ==> number == 0,
        priority is Ordinary ==> number == 1,
{
}

} // verus!
