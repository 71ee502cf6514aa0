//! Authority: policies, grants, and what they allow.

use crate::error::{Refusal, StoreError};
use crate::ids::{
    Digest, GrantId, MessageId, OperationId, ParticipantId, RequestId, Revision, SessionId,
    TemplateId,
};
use crate::mailbox::{MailboxCounter, MessageSnapshot, StoreLimits};
use crate::operation::{
    bare_refusal, child_of, input_message, kept_refusal, make_input_message, queued_operation,
    CreateChildParticipant, OperationSnapshot, OperationState, ParticipantSnapshot, StartOperation,
};
use crate::text::text_mark;
use crate::time::Timestamp;
use vstd::prelude::*;

verus! {

/// What the store itself asks authority for.
#[derive(Clone, Copy, PartialEq, Eq, Debug, Structural)]
pub enum StoreCapability {
    MessageQuestion,
    MessageSend,
    MessageOutcome,
    OperationCancel,
    OperationResume,
    ParticipantStatus,
    ResolveUncertainty,
}

/// The stored name of a capability.
pub open spec fn capability_text(value: StoreCapability) -> Seq<char> {
    match value {
        StoreCapability::MessageQuestion => "message.question"@,
        StoreCapability::MessageSend => "message.send"@,
        StoreCapability::MessageOutcome => "message.outcome"@,
        StoreCapability::OperationCancel => "operation.cancel"@,
        StoreCapability::OperationResume => "operation.resume"@,
        StoreCapability::ParticipantStatus => "participant.status"@,
        StoreCapability::ResolveUncertainty => "effect.resolve_uncertainty"@,
    }
}

/// The stored name of a capability.
pub fn capability_name(value: StoreCapability) -> (name: &'static str)
    ensures
        name@ == capability_text(value),
{
    match value {
        StoreCapability::MessageQuestion => "message.question",
        StoreCapability::MessageSend => "message.send",
        StoreCapability::MessageOutcome => "message.outcome",
        StoreCapability::OperationCancel => "operation.cancel",
        StoreCapability::OperationResume => "operation.resume",
        StoreCapability::ParticipantStatus => "participant.status",
        StoreCapability::ResolveUncertainty => "effect.resolve_uncertainty",
    }
}

/// A stored name stands for one value only, so a name that was written is read back as the
/// value it was written for.
pub proof fn capability_names_are_distinct(left: StoreCapability, right: StoreCapability)
    requires
        capability_text(left) == capability_text(right),
    ensures
        left == right,
{
    reveal_strlit("message.question");
    reveal_strlit("message.send");
    reveal_strlit("message.outcome");
    reveal_strlit("operation.cancel");
    reveal_strlit("operation.resume");
    reveal_strlit("participant.status");
    reveal_strlit("effect.resolve_uncertainty");
    assert(text_mark(capability_text(left)) == text_mark(capability_text(right)));
}

/// What an authority is about.
#[derive(Clone, Copy, PartialEq, Eq, Debug, Structural)]
pub enum ResourceScope {
    Participant(ParticipantId),
    Operation(OperationId),
}

/// An authority that is asked for: a capability over a resource.
#[derive(Clone, Copy, PartialEq, Eq, Debug, Structural)]
pub struct ScopedCapability {
    pub capability: StoreCapability,
    pub scope: ResourceScope,
}

/// A grant: an authority, known by its digest, that was given to a participant.
#[derive(Clone, Copy, PartialEq, Eq, Debug, Structural)]
pub struct Grant {
    pub id: GrantId,
    pub session_id: SessionId,
    pub subject: ParticipantId,
    pub authority: Digest,
    pub revoked: bool,
}

/// A grant as it is kept.
#[derive(Clone, Copy, PartialEq, Eq, Debug, Structural)]
pub struct GrantSnapshot {
    pub grant: Grant,
    pub single_use: bool,
    pub consumed_at: Option<Timestamp>,
}

/// Whether a request may use a grant: it names none that is there, or one that was not used up.
pub open spec fn grant_usable(grant: Option<GrantSnapshot>) -> bool {
    grant matches Some(grant) ==> grant.consumed_at is None
}

/// Whether a request may use a grant.
pub fn is_grant_usable(grant: Option<GrantSnapshot>) -> (result: bool)
    ensures
        result == grant_usable(grant),
{
    match grant {
        Some(grant) => grant.consumed_at.is_none(),
        None => true,
    }
}

/// What is written of a grant after it was used: one that serves once is used up.
pub open spec fn spent(grant: Option<GrantSnapshot>, now: Timestamp) -> Option<GrantSnapshot> {
    match grant {
        Some(grant) => if grant.single_use {
            Some(GrantSnapshot { consumed_at: Some(now), ..grant })
        } else {
            None
        },
        None => None,
    }
}

/// What is written of a grant after it was used.
pub fn spend_grant(grant: Option<GrantSnapshot>, now: Timestamp) -> (after: Option<GrantSnapshot>)
    ensures
        after == spent(grant, now),
{
    match grant {
        Some(grant) => if grant.single_use {
            Some(GrantSnapshot { consumed_at: Some(now), ..grant })
        } else {
            None
        },
        None => None,
    }
}

/// A grant that serves once cannot be used again after it was used.
pub proof fn single_use_grants_serve_once(grant: GrantSnapshot, now: Timestamp)
    requires
        grant.single_use,
    ensures
        spent(Some(grant), now) matches Some(after) && !grant_usable(Some(after)),
{
}

/// The five sets of authority that bound a participant, each known by its digest.
#[derive(Clone, Copy, PartialEq, Eq, Debug, Structural)]
pub struct AuthorityPolicy {
    pub session_id: SessionId,
    pub participant_id: ParticipantId,
    pub session: Digest,
    pub parent: Digest,
    pub template: Digest,
    pub relationship: Digest,
    pub subject: Digest,
}

/// The most parent templates that a template may be placed under.
pub const MAX_PARENT_TEMPLATES: usize = 256;

/// What a template may do, and under which templates it may be placed.
pub struct AuthorityTemplatePolicy {
    pub template_id: TemplateId,
    pub allowed_parent_templates: Vec<TemplateId>,
    pub template: Digest,
    pub relationship: Digest,
    pub subject: Digest,
}

/// Whether two template policies are the same.
pub open spec fn same_template_policy(
    left: AuthorityTemplatePolicy,
    right: AuthorityTemplatePolicy,
) -> bool {
    &&& left.template_id == right.template_id
    &&& left.allowed_parent_templates@ == right.allowed_parent_templates@
    &&& left.template == right.template
    &&& left.relationship == right.relationship
    &&& left.subject == right.subject
}

fn is_same_template_policy(left: &AuthorityTemplatePolicy, right: &AuthorityTemplatePolicy) -> (
result: bool)
    ensures
        result == same_template_policy(*left, *right),
{
    if left.allowed_parent_templates.len() != right.allowed_parent_templates.len() {
        return false;
    }
    let mut index: usize = 0;
    while index < left.allowed_parent_templates.len()
        invariant
            index <= left.allowed_parent_templates.len(),
            left.allowed_parent_templates.len() == right.allowed_parent_templates.len(),
            forall|i: int|
                0 <= i < index ==> left.allowed_parent_templates[i]
                    == right.allowed_parent_templates[i],
        decreases left.allowed_parent_templates.len() - index,
    {
        if left.allowed_parent_templates[index] != right.allowed_parent_templates[index] {
            return false;
        }
        index = index + 1;
    }
    assert(left.allowed_parent_templates@ =~= right.allowed_parent_templates@);
    left.template_id == right.template_id && left.template == right.template
        && left.relationship == right.relationship && left.subject == right.subject
}

/// Decides the registration of a template policy: whether it is written.
///
/// It names between one and the most parent templates, its template is registered, and a policy
/// that is there is never changed.
pub fn register_authority_template_policy(
    policy: &AuthorityTemplatePolicy,
    template_registered: bool,
    existing: Option<&AuthorityTemplatePolicy>,
) -> (result: Result<bool, Refusal>)
    ensures
        ({
            let parents = policy.allowed_parent_templates@.len();
            if parents == 0 || parents > MAX_PARENT_TEMPLATES || !template_registered {
                result == Err::<bool, Refusal>(kept_refusal(StoreError::Invalid))
            } else {
                match existing {
                    Some(existing) => if same_template_policy(*existing, *policy) {
                        result == Ok::<bool, Refusal>(false)
                    } else {
                        result == Err::<bool, Refusal>(kept_refusal(StoreError::Invalid))
                    },
                    None => result == Ok::<bool, Refusal>(true),
                }
            }
        }),
{
    if policy.allowed_parent_templates.len() == 0 || policy.allowed_parent_templates.len()
        > MAX_PARENT_TEMPLATES || !template_registered {
        return Err(Refusal { error: StoreError::Invalid, recorded: true });
    }
    match existing {
        Some(existing) => if is_same_template_policy(existing, policy) {
            Ok(false)
        } else {
            Err(Refusal { error: StoreError::Invalid, recorded: true })
        },
        None => Ok(true),
    }
}

/// Checks that the template policy of an answered request is still the one that is stored.
pub fn validate_template_policy_replay(
    recorded: &AuthorityTemplatePolicy,
    current: Option<&AuthorityTemplatePolicy>,
) -> (result: Result<(), StoreError>)
    ensures
        result == (match current {
            Some(current) if same_template_policy(*current, *recorded) => Ok::<(), StoreError>(()),
            _ => Err(StoreError::Corrupt),
        }),
{
    match current {
        Some(current) => if is_same_template_policy(current, recorded) {
            Ok(())
        } else {
            Err(StoreError::Corrupt)
        },
        None => Err(StoreError::Corrupt),
    }
}

/// Whether all answers are yes.
pub open spec fn all_yes(answers: Seq<bool>) -> bool {
    forall|i: int| 0 <= i < answers.len() ==> #[trigger] answers[i]
}

fn are_all_yes(answers: &Vec<bool>) -> (result: bool)
    ensures
        result == all_yes(answers@),
{
    let mut index: usize = 0;
    while index < answers.len()
        invariant
            index <= answers.len(),
            forall|i: int| 0 <= i < index ==> #[trigger] answers[i],
        decreases answers.len() - index,
    {
        if !answers[index] {
            assert(!answers@[index as int]);
            return false;
        }
        index = index + 1;
    }
    true
}

/// Whether a policy may be put in place: it belongs to the session, its participant too, and the
/// ceilings allow everything that it makes active or lets be handed on.
pub open spec fn policy_admissible(
    session_id: SessionId,
    policy: AuthorityPolicy,
    participant: Option<ParticipantSnapshot>,
    active: Seq<bool>,
    delegable: Seq<bool>,
) -> bool {
    &&& policy.session_id == session_id
    &&& participant matches Some(participant)
    &&& participant.session_id == session_id
    &&& all_yes(active)
    &&& all_yes(delegable)
}

/// Decides a wish to put a policy in place: whether it is written. A policy that is there is
/// never changed.
///
/// `active` and `delegable` tell of each authority in the policy whether its ceilings allow it.
pub fn put_authority_policy(
    session_id: SessionId,
    policy: AuthorityPolicy,
    participant: Option<ParticipantSnapshot>,
    active: &Vec<bool>,
    delegable: &Vec<bool>,
    existing: Option<AuthorityPolicy>,
) -> (result: Result<bool, Refusal>)
    ensures
        if !policy_admissible(session_id, policy, participant, active@, delegable@) {
            result == Err::<bool, Refusal>(kept_refusal(StoreError::Invalid))
        } else {
            match existing {
                Some(existing) => if existing == policy {
                    result == Ok::<bool, Refusal>(false)
                } else {
                    result == Err::<bool, Refusal>(kept_refusal(StoreError::Invalid))
                },
                None => result == Ok::<bool, Refusal>(true),
            }
        },
{
    let belongs: bool = match participant {
        Some(participant) => participant.session_id == session_id,
        None => false,
    };
    if policy.session_id != session_id || !belongs || !are_all_yes(active) || !are_all_yes(
        delegable,
    ) {
        return Err(Refusal { error: StoreError::Invalid, recorded: true });
    }
    match existing {
        Some(existing) => if existing == policy {
            Ok(false)
        } else {
            Err(Refusal { error: StoreError::Invalid, recorded: true })
        },
        None => Ok(true),
    }
}

/// The outcome of a wish to give a grant.
///
/// The grant belongs to the session, stands, is allowed by the policy of its subject, and is new.
pub open spec fn issue_outcome(
    session_id: SessionId,
    grant: Grant,
    single_use: bool,
    active: bool,
    policy: bool,
    authorized: bool,
    exists: bool,
) -> Result<GrantSnapshot, Refusal> {
    if grant.session_id != session_id || grant.revoked || !active {
        Err(kept_refusal(StoreError::Invalid))
    } else if !policy {
        Err(bare_refusal(StoreError::Invalid))
    } else if !authorized || exists {
        Err(kept_refusal(StoreError::Invalid))
    } else {
        Ok(GrantSnapshot { grant, single_use, consumed_at: None })
    }
}

/// Decides a wish to give a grant.
///
/// `active` tells whether the grant stands now, `policy` whether its subject has a policy,
/// `authorized` whether that allows the grant, and `exists` whether the identity is taken.
pub fn issue_grant(
    session_id: SessionId,
    grant: Grant,
    single_use: bool,
    active: bool,
    policy: bool,
    authorized: bool,
    exists: bool,
) -> (result: Result<GrantSnapshot, Refusal>)
    ensures
        result == issue_outcome(
            session_id,
            grant,
            single_use,
            active,
            policy,
            authorized,
            exists,
        ),
{
    if grant.session_id != session_id || grant.revoked || !active {
        return Err(Refusal { error: StoreError::Invalid, recorded: true });
    }
    if !policy {
        return Err(Refusal { error: StoreError::Invalid, recorded: false });
    }
    if !authorized || exists {
        return Err(Refusal { error: StoreError::Invalid, recorded: true });
    }
    Ok(GrantSnapshot { grant, single_use, consumed_at: None })
}

/// Decides a wish to withdraw a grant.
pub fn revoke_grant(session_id: SessionId, grant: Option<GrantSnapshot>) -> (result: Result<
    GrantSnapshot,
    Refusal,
>)
    ensures
        result == (match grant {
            None => Err::<GrantSnapshot, Refusal>(bare_refusal(StoreError::Invalid)),
            Some(snapshot) => if snapshot.grant.session_id != session_id {
                Err(kept_refusal(StoreError::Invalid))
            } else {
                Ok(
                    GrantSnapshot {
                        grant: Grant { revoked: true, ..snapshot.grant },
                        ..snapshot
                    },
                )
            },
        }),
{
    match grant {
        None => Err(Refusal { error: StoreError::Invalid, recorded: false }),
        Some(snapshot) => if snapshot.grant.session_id != session_id {
            Err(Refusal { error: StoreError::Invalid, recorded: true })
        } else {
            Ok(GrantSnapshot { grant: Grant { revoked: true, ..snapshot.grant }, ..snapshot })
        },
    }
}

/// What comes of asking whether an effect is allowed: the answer, and what is written of the
/// grant.
#[derive(Clone, Copy, PartialEq, Eq, Debug, Structural)]
pub struct AuthorityAnswer {
    pub allowed: bool,
    pub grant: Option<GrantSnapshot>,
}

/// Answers whether an effect is allowed: the policy must allow it, and the grant must not have
/// been used up. A grant is used up only where the effect is allowed.
pub fn check_authority_effect(
    authorized: bool,
    grant: Option<GrantSnapshot>,
    now: Timestamp,
) -> (answer: AuthorityAnswer)
    ensures
        answer.allowed == (authorized && grant_usable(grant)),
        answer.grant == (if answer.allowed {
            spent(grant, now)
        } else {
            None
        }),
{
    if authorized && is_grant_usable(grant) {
        AuthorityAnswer { allowed: true, grant: spend_grant(grant, now) }
    } else {
        AuthorityAnswer { allowed: false, grant: None }
    }
}

/// The type of the event that tells the answer to a question of authority.
pub fn authority_event_name(allowed: bool) -> (name: &'static str)
    ensures
        name@ == if allowed {
            "authority.allowed"@
        } else {
            "authority.denied"@
        },
{
    if allowed {
        "authority.allowed"
    } else {
        "authority.denied"
    }
}

/// A wish of a participant for a participant below it that starts to work at once.
#[derive(Clone, Copy, PartialEq, Eq, Debug, Structural)]
pub struct CreateAuthorizedChild {
    pub request_id: RequestId,
    pub session_id: SessionId,
    pub parent_participant_id: ParticipantId,
    pub participant_id: ParticipantId,
    pub template_id: TemplateId,
    pub expected_compatibility: Digest,
    pub operation_id: OperationId,
    pub input_message_id: MessageId,
    /// The digest of the input.
    pub input_digest: Digest,
    /// The size of the envelope that tells the input, in bytes.
    pub envelope_size: u64,
}

/// What was found for a wish for a working participant.
pub struct AuthorizedChildFacts {
    pub parent: Option<ParticipantSnapshot>,
    /// Whether the cancellation of the parent was asked for.
    pub parent_cancelled: bool,
    /// The compatibility of the template, where it is registered.
    pub template: Option<Digest>,
    pub template_allowed: bool,
    /// Whether the template takes exactly the given input.
    pub input_valid: bool,
    pub template_policy: Option<AuthorityTemplatePolicy>,
    pub parent_policy: Option<AuthorityPolicy>,
    /// Whether the policy of the parent, with the grant, allows the wish.
    pub authorized: bool,
    pub grant: Option<GrantSnapshot>,
    /// Whether the ceilings of the new participant allow each authority that it would have
    /// active, and each that it could hand on.
    pub child_active: Vec<bool>,
    pub child_delegable: Vec<bool>,
    pub exists: bool,
    pub operation_exists: bool,
    pub message_exists: bool,
    pub direct: i64,
    pub total: i64,
}

/// The policy of a new participant: what its template may do, bounded by its parent.
pub open spec fn child_policy(
    command: CreateAuthorizedChild,
    trusted: AuthorityTemplatePolicy,
    parent: AuthorityPolicy,
) -> AuthorityPolicy {
    AuthorityPolicy {
        session_id: command.session_id,
        participant_id: command.participant_id,
        session: parent.session,
        parent: parent.subject,
        template: trusted.template,
        relationship: trusted.relationship,
        subject: trusted.subject,
    }
}

/// Composes the policy of a new participant from those of its template and its parent.
pub fn compose_child_policy(
    command: CreateAuthorizedChild,
    trusted: &AuthorityTemplatePolicy,
    parent: AuthorityPolicy,
) -> (policy: AuthorityPolicy)
    ensures
        policy == child_policy(command, *trusted, parent),
{
    AuthorityPolicy {
        session_id: command.session_id,
        participant_id: command.participant_id,
        session: parent.session,
        parent: parent.subject,
        template: trusted.template,
        relationship: trusted.relationship,
        subject: trusted.subject,
    }
}

/// Whether a wish for a working participant is granted.
pub open spec fn spawn_allowed(
    command: CreateAuthorizedChild,
    facts: AuthorizedChildFacts,
    limits: StoreLimits,
) -> bool {
    &&& facts.authorized
    &&& grant_usable(facts.grant)
    &&& facts.parent_policy is Some
    &&& all_yes(facts.child_active@)
    &&& all_yes(facts.child_delegable@)
    &&& command.participant_id != command.parent_participant_id
    &&& facts.parent matches Some(parent)
    &&& parent.session_id == command.session_id
    &&& parent.depth < limits.max_participant_depth
    &&& facts.template_policy matches Some(trusted)
    &&& trusted.allowed_parent_templates@.contains(parent.template_id)
    &&& facts.template == Some(command.expected_compatibility)
    &&& facts.template_allowed
    &&& !facts.exists
    &&& facts.input_valid
    &&& !facts.operation_exists
    &&& !facts.message_exists
    &&& facts.direct < limits.max_direct_children
    &&& facts.total < limits.max_session_participants
}

/// A working participant: its snapshot, its policy, its operation with the input message and the
/// mailbox that this begins, and what is written of the grant.
#[derive(Clone, Copy, PartialEq, Eq, Debug, Structural)]
pub struct SpawnPlan {
    pub participant: ParticipantSnapshot,
    pub policy: AuthorityPolicy,
    pub operation: OperationSnapshot,
    pub message: MessageSnapshot,
    pub counter: MailboxCounter,
    pub grant: Option<GrantSnapshot>,
}

/// The participant part of a wish for a working participant.
pub open spec fn child_command(command: CreateAuthorizedChild) -> CreateChildParticipant {
    CreateChildParticipant {
        session_id: command.session_id,
        participant_id: command.participant_id,
        parent_participant_id: command.parent_participant_id,
        template_id: command.template_id,
        expected_compatibility: command.expected_compatibility,
    }
}

/// The operation part of a wish for a working participant.
pub open spec fn start_command(command: CreateAuthorizedChild) -> StartOperation {
    StartOperation {
        request_id: command.request_id,
        session_id: command.session_id,
        operation_id: command.operation_id,
        participant_id: command.participant_id,
        input_message_id: command.input_message_id,
        input_digest: command.input_digest,
        envelope_size: command.envelope_size,
    }
}

/// The outcome of a wish for a working participant: nothing where it is denied.
pub open spec fn spawn_outcome(
    command: CreateAuthorizedChild,
    facts: AuthorizedChildFacts,
    limits: StoreLimits,
    now: Timestamp,
) -> Result<Option<SpawnPlan>, Refusal> {
    if facts.parent_cancelled {
        Err(kept_refusal(StoreError::Invalid))
    } else if !spawn_allowed(command, facts, limits) {
        Ok(None)
    } else if command.envelope_size > i64::MAX {
        Err(bare_refusal(StoreError::MessageOversize))
    } else {
        let operation = queued_operation(start_command(command), now);
        Ok(
            Some(
                SpawnPlan {
                    participant: child_of(child_command(command), facts.parent->Some_0),
                    policy: child_policy(
                        command,
                        facts.template_policy->Some_0,
                        facts.parent_policy->Some_0,
                    ),
                    operation,
                    message: input_message(operation, command.envelope_size, 1),
                    counter: MailboxCounter {
                        next_sequence: 2,
                        queued_bytes: command.envelope_size as i64,
                        queued_messages: 1,
                    },
                    grant: spent(facts.grant, now),
                },
            ),
        )
    }
}

fn contains_template(templates: &Vec<TemplateId>, template: TemplateId) -> (result: bool)
    ensures
        result == templates@.contains(template),
{
    let mut index: usize = 0;
    while index < templates.len()
        invariant
            index <= templates.len(),
            forall|i: int| 0 <= i < index ==> templates[i] != template,
        decreases templates.len() - index,
    {
        if templates[index] == template {
            assert(templates@[index as int] == template);
            return true;
        }
        index = index + 1;
    }
    false
}

/// Decides a wish for a working participant, at the time floor of its session.
pub fn create_authorized_child(
    command: CreateAuthorizedChild,
    facts: &AuthorizedChildFacts,
    limits: StoreLimits,
    now: Timestamp,
) -> (result: Result<Option<SpawnPlan>, Refusal>)
    ensures
        result == spawn_outcome(command, *facts, limits, now),
{
    if facts.parent_cancelled {
        return Err(Refusal { error: StoreError::Invalid, recorded: true });
    }
    match (facts.parent, &facts.template_policy, facts.parent_policy) {
        (Some(parent), Some(trusted), Some(parent_policy)) => {
            let allowed: bool = facts.authorized && is_grant_usable(facts.grant) && are_all_yes(
                &facts.child_active,
            ) && are_all_yes(&facts.child_delegable) && command.participant_id
                != command.parent_participant_id && parent.session_id == command.session_id
                && parent.depth < limits.max_participant_depth && contains_template(
                &trusted.allowed_parent_templates,
                parent.template_id,
            ) && facts.template == Some(command.expected_compatibility) && facts.template_allowed
                && !facts.exists && facts.input_valid && !facts.operation_exists
                && !facts.message_exists && facts.direct < limits.max_direct_children as i64
                && facts.total < limits.max_session_participants as i64;
            if !allowed {
                return Ok(None);
            }
            if command.envelope_size > i64::MAX as u64 {
                return Err(Refusal { error: StoreError::MessageOversize, recorded: false });
            }
            let participant = ParticipantSnapshot {
                session_id: command.session_id,
                participant_id: command.participant_id,
                parent_participant_id: Some(command.parent_participant_id),
                depth: parent.depth + 1,
                template_id: command.template_id,
                template_compatibility: command.expected_compatibility,
                revision: Revision::initial(),
            };
            let operation = OperationSnapshot {
                session_id: command.session_id,
                operation_id: command.operation_id,
                participant_id: command.participant_id,
                start_request_id: command.request_id,
                input_message_id: command.input_message_id,
                waiting_on_message_id: None,
                input_digest: command.input_digest,
                state: OperationState::Queued,
                revision: Revision::initial(),
                terminal_outcome: None,
                created_at: now,
                updated_at: now,
            };
            Ok(
                Some(
                    SpawnPlan {
                        participant,
                        policy: compose_child_policy(command, trusted, parent_policy),
                        operation,
                        message: make_input_message(operation, command.envelope_size, 1),
                        counter: MailboxCounter {
                            next_sequence: 2,
                            queued_bytes: command.envelope_size as i64,
                            queued_messages: 1,
                        },
                        grant: spend_grant(facts.grant, now),
                    },
                ),
            )
        },
        _ => Ok(None),
    }
}

/// A working participant is sound, stands directly below its parent, is bounded by what its
/// parent itself may do, and its operation is sound.
pub proof fn spawned_participants_are_bounded(
    command: CreateAuthorizedChild,
    facts: AuthorizedChildFacts,
    limits: StoreLimits,
    now: Timestamp,
)
    requires
        facts.parent matches Some(parent) ==> parent.sound(limits.max_participant_depth),
    ensures
        spawn_outcome(command, facts, limits, now) matches Ok(Some(plan)) ==> {
            &&& plan.participant.sound(limits.max_participant_depth)
            &&& plan.participant.depth == facts.parent->Some_0.depth + 1
            &&& plan.policy.parent == facts.parent_policy->Some_0.subject
            &&& plan.policy.session == facts.parent_policy->Some_0.session
            &&& plan.policy.participant_id == plan.participant.participant_id
            &&& plan.operation.sound()
            &&& plan.operation.participant_id == plan.participant.participant_id
            &&& plan.message.destination == plan.participant.participant_id
        },
{
}

/// Whether a recorded grant of such a wish still stands: the participant and its policy as they
/// were recorded, the operation by what never changes of it, and the input message.
pub open spec fn spawn_stands(
    participant: ParticipantSnapshot,
    policy: AuthorityPolicy,
    operation: OperationSnapshot,
    current_participant: Option<ParticipantSnapshot>,
    current_policy: Option<AuthorityPolicy>,
    current_operation: Option<OperationSnapshot>,
    message: Option<MessageSnapshot>,
) -> bool {
    &&& current_participant == Some(participant)
    &&& current_policy == Some(policy)
    &&& current_operation matches Some(current)
    &&& current.session_id == operation.session_id
    &&& current.operation_id == operation.operation_id
    &&& current.participant_id == operation.participant_id
    &&& current.start_request_id == operation.start_request_id
    &&& current.input_message_id == operation.input_message_id
    &&& current.input_digest == operation.input_digest
    &&& current.created_at == operation.created_at
    &&& message matches Some(message)
    &&& message.session_id == participant.session_id
    &&& message.source == participant.participant_id
    &&& message.destination == participant.participant_id
    &&& message.correlation.operation_id == Some(operation.operation_id)
    &&& message.envelope.body == (crate::mailbox::MessageBody::OperationInput {
        operation_id: operation.operation_id,
        input_digest: operation.input_digest,
    })
}

/// Checks that a recorded working participant still stands.
pub fn validate_spawn_replay(
    participant: ParticipantSnapshot,
    policy: AuthorityPolicy,
    operation: OperationSnapshot,
    current_participant: Option<ParticipantSnapshot>,
    current_policy: Option<AuthorityPolicy>,
    current_operation: Option<OperationSnapshot>,
    message: Option<MessageSnapshot>,
) -> (result: Result<(), StoreError>)
    ensures
        result == (if spawn_stands(
            participant,
            policy,
            operation,
            current_participant,
            current_policy,
            current_operation,
            message,
        ) {
            Ok::<(), StoreError>(())
        } else {
            Err(StoreError::Corrupt)
        }),
{
    match (current_operation, message) {
        (Some(current), Some(message)) => {
            let input = crate::mailbox::MessageBody::OperationInput {
                operation_id: operation.operation_id,
                input_digest: operation.input_digest,
            };
            if current_participant == Some(participant) && current_policy == Some(policy)
                && current.session_id == operation.session_id && current.operation_id
                == operation.operation_id && current.participant_id == operation.participant_id
                && current.start_request_id == operation.start_request_id
                && current.input_message_id == operation.input_message_id && current.input_digest
                == operation.input_digest && current.created_at == operation.created_at
                && message.session_id == participant.session_id && message.source
                == participant.participant_id && message.destination
                == participant.participant_id && message.correlation.operation_id == Some(
                operation.operation_id,
            ) && message.envelope.body == input {
                Ok(())
            } else {
                Err(StoreError::Corrupt)
            }
        },
        _ => Err(StoreError::Corrupt),
    }
}

} // verus!
