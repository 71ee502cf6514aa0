//! Authority: policies, grants, and children that are created with their work.

use crate::authority::{
    check_authority_effect, compose_child_policy, create_authorized_child, is_grant_usable,
    issue_grant, put_authority_policy, register_authority_template_policy, revoke_grant,
    spend_grant, validate_spawn_replay, validate_template_policy_replay, AuthorityAnswer,
    AuthorityPolicy, AuthorityTemplatePolicy, AuthorizedChildFacts, CreateAuthorizedChild, Grant,
    GrantSnapshot, SpawnPlan,
};
use crate::error::{Refusal, StoreError};
use crate::ids::{SessionId, TemplateId};
use crate::laws::hierarchies::is_spent;
use crate::laws::operations::carries_input;
use crate::laws::words::{refused_for_good, refused_for_now};
use crate::mailbox::{MessageSnapshot, StoreLimits};
use crate::operation::{OperationSnapshot, ParticipantSnapshot};
use crate::time::Timestamp;
use vstd::prelude::*;

verus! {

/// A grant is issued in its session, unrevoked, under a policy that allows it, once.
pub proof fn grants_are_issued_under_a_policy(
    session_id: SessionId,
    grant: Grant,
    single_use: bool,
    active: bool,
    policy: bool,
    authorized: bool,
    exists: bool,
    result: Result<GrantSnapshot, Refusal>,
)
    requires
        call_ensures(
            issue_grant,
            (session_id, grant, single_use, active, policy, authorized, exists),
            result,
        ),
    ensures
        result is Ok <==> grant.session_id == session_id && !grant.revoked && active && policy
            && authorized && !exists,
        result matches Ok(issued) ==> {
            &&& issued.grant == grant
            &&& issued.single_use == single_use
            &&& issued.consumed_at is None
        },
        grant.session_id != session_id || grant.revoked || !active ==> refused_for_good(
            result,
            StoreError::Invalid,
        ),
        grant.session_id == session_id && !grant.revoked && active && !policy ==> refused_for_now(
            result,
            StoreError::Invalid,
        ),
        grant.session_id == session_id && !grant.revoked && active && policy && (!authorized
            || exists) ==> refused_for_good(result, StoreError::Invalid),
{
}

/// A grant is revoked in its session, and is otherwise what it was.
pub proof fn grants_are_revoked_in_their_session(
    session_id: SessionId,
    grant: Option<GrantSnapshot>,
    result: Result<GrantSnapshot, Refusal>,
)
    requires
        call_ensures(revoke_grant, (session_id, grant), result),
    ensures
        result is Ok <==> (grant matches Some(held) && held.grant.session_id == session_id),
        result matches Ok(after) ==> {
            let before = grant->Some_0;
            &&& after.grant.revoked
            &&& after.grant.id == before.grant.id
            &&& after.grant.session_id == before.grant.session_id
            &&& after.grant.subject == before.grant.subject
            &&& after.grant.authority == before.grant.authority
            &&& after.single_use == before.single_use
            &&& after.consumed_at == before.consumed_at
        },
        grant is None ==> refused_for_now(result, StoreError::Invalid),
        grant is Some && result is Err ==> refused_for_good(result, StoreError::Invalid),
{
}

/// Something is allowed by authority and a grant that was not used up, where there is one. A
/// grant for one use is used up by it.
pub proof fn grants_for_one_use_are_used_up(
    authorized: bool,
    grant: Option<GrantSnapshot>,
    now: Timestamp,
    answer: AuthorityAnswer,
    usable: bool,
    spent: Option<GrantSnapshot>,
)
    requires
        call_ensures(check_authority_effect, (authorized, grant, now), answer),
        call_ensures(is_grant_usable, (grant,), usable),
        call_ensures(spend_grant, (grant, now), spent),
    ensures
        usable <==> (grant matches Some(held) ==> held.consumed_at is None),
        is_spent(grant, now, spent),
        answer.allowed <==> authorized && usable,
        answer.allowed ==> answer.grant == spent,
        !answer.allowed ==> answer.grant is None,
{
}

/// Two policies of a template say the same.
pub open spec fn agree(left: AuthorityTemplatePolicy, right: AuthorityTemplatePolicy) -> bool {
    &&& left.template_id == right.template_id
    &&& left.allowed_parent_templates@ == right.allowed_parent_templates@
    &&& left.template == right.template
    &&& left.relationship == right.relationship
    &&& left.subject == right.subject
}

/// The policy of a registered template is registered once; it names at least one template that
/// may be above, and not more than two hundred and fifty-six.
pub proof fn template_policies_are_registered_once(
    policy: AuthorityTemplatePolicy,
    template_registered: bool,
    existing: AuthorityTemplatePolicy,
    fresh: Result<bool, Refusal>,
    again: Result<bool, Refusal>,
    replayed: Result<(), StoreError>,
    lost: Result<(), StoreError>,
)
    requires
        call_ensures(
            register_authority_template_policy,
            (&policy, template_registered, None::<&AuthorityTemplatePolicy>),
            fresh,
        ),
        call_ensures(
            register_authority_template_policy,
            (&policy, template_registered, Some(&existing)),
            again,
        ),
        call_ensures(validate_template_policy_replay, (&policy, Some(&existing)), replayed),
        call_ensures(
            validate_template_policy_replay,
            (&policy, None::<&AuthorityTemplatePolicy>),
            lost,
        ),
    ensures
        ({
            let acceptable = template_registered && 1 <= policy.allowed_parent_templates@.len()
                <= 256;
            &&& fresh is Ok <==> acceptable
            &&& again is Ok <==> acceptable && agree(existing, policy)
        }),
        fresh matches Ok(written) ==> written,
        again matches Ok(written) ==> !written,
        fresh is Err ==> refused_for_good(fresh, StoreError::Invalid),
        again is Err ==> refused_for_good(again, StoreError::Invalid),
        replayed is Ok <==> agree(existing, policy),
        replayed matches Err(error) ==> error == StoreError::Corrupt,
        lost == Err::<(), StoreError>(StoreError::Corrupt),
{
}

/// The policy of a participant is put once, in its session, if every part of it is active and may
/// be handed on.
pub proof fn policies_are_put_once(
    session_id: SessionId,
    policy: AuthorityPolicy,
    participant: Option<ParticipantSnapshot>,
    active: Vec<bool>,
    delegable: Vec<bool>,
    existing: Option<AuthorityPolicy>,
    result: Result<bool, Refusal>,
)
    requires
        call_ensures(
            put_authority_policy,
            (session_id, policy, participant, &active, &delegable, existing),
            result,
        ),
    ensures
        result is Ok <==> {
            &&& policy.session_id == session_id
            &&& participant matches Some(owner)
            &&& owner.session_id == session_id
            &&& forall|i: int| 0 <= i < active@.len() ==> #[trigger] active@[i]
            &&& forall|i: int| 0 <= i < delegable@.len() ==> #[trigger] delegable@[i]
            &&& existing matches Some(kept) ==> kept == policy
        },
        result matches Ok(written) ==> (written <==> existing is None),
        result is Err ==> refused_for_good(result, StoreError::Invalid),
{
}

/// A child's policy has the session of its parent's, the parent's own authority above it, and of
/// its template what the template allows.
pub open spec fn is_below(
    policy: AuthorityPolicy,
    command: CreateAuthorizedChild,
    trusted: AuthorityTemplatePolicy,
    parent: AuthorityPolicy,
) -> bool {
    &&& policy.session_id == command.session_id
    &&& policy.participant_id == command.participant_id
    &&& policy.session == parent.session
    &&& policy.parent == parent.subject
    &&& policy.template == trusted.template
    &&& policy.relationship == trusted.relationship
    &&& policy.subject == trusted.subject
}

/// What a child may do follows from its parent and its template.
pub proof fn children_get_their_policy_from_above(
    command: CreateAuthorizedChild,
    trusted: AuthorityTemplatePolicy,
    parent: AuthorityPolicy,
    policy: AuthorityPolicy,
)
    requires
        call_ensures(compose_child_policy, (command, &trusted, parent), policy),
    ensures
        is_below(policy, command, trusted, parent),
{
}

/// The parent may have this child: it is authorized, with a grant that was not used up where one
/// is needed, its template may be above the child's, and numbers and depth stay within limits.
pub open spec fn may_spawn(
    command: CreateAuthorizedChild,
    facts: AuthorizedChildFacts,
    limits: StoreLimits,
) -> bool {
    &&& facts.authorized
    &&& facts.grant matches Some(grant) ==> grant.consumed_at is None
    &&& facts.parent_policy is Some
    &&& forall|i: int| 0 <= i < facts.child_active@.len() ==> #[trigger] facts.child_active@[i]
    &&& forall|i: int|
        0 <= i < facts.child_delegable@.len() ==> #[trigger] facts.child_delegable@[i]
    &&& command.participant_id != command.parent_participant_id
    &&& facts.parent matches Some(parent)
    &&& parent.session_id == command.session_id
    &&& parent.depth + 1 <= limits.max_participant_depth
    &&& facts.template_policy matches Some(trusted)
    &&& exists|i: int|
        0 <= i < trusted.allowed_parent_templates@.len()
            && #[trigger] trusted.allowed_parent_templates@[i] == parent.template_id
    &&& facts.template == Some(command.expected_compatibility)
    &&& facts.template_allowed
    &&& !facts.exists
    &&& facts.input_valid
    &&& !facts.operation_exists
    &&& !facts.message_exists
    &&& facts.direct + 1 <= limits.max_direct_children
    &&& facts.total + 1 <= limits.max_session_participants
}

/// A child that is created with authority comes with its policy, its operation and the input of
/// it in a mailbox of its own; the grant is used up if it was for one use.
pub proof fn children_are_spawned_with_their_work(
    command: CreateAuthorizedChild,
    facts: AuthorizedChildFacts,
    limits: StoreLimits,
    now: Timestamp,
    result: Result<Option<SpawnPlan>, Refusal>,
)
    requires
        call_ensures(create_authorized_child, (command, &facts, limits, now), result),
    ensures
        facts.parent_cancelled ==> refused_for_good(result, StoreError::Invalid),
        !facts.parent_cancelled ==> {
            &&& !may_spawn(command, facts, limits) ==> result == Ok::<
                Option<SpawnPlan>,
                Refusal,
            >(None)
            &&& may_spawn(command, facts, limits) && command.envelope_size > i64::MAX
                ==> refused_for_now(result, StoreError::MessageOversize)
            &&& may_spawn(command, facts, limits) && command.envelope_size <= i64::MAX ==> (
            result matches Ok(Some(_)))
        },
        result matches Ok(Some(plan)) ==> {
            let parent = facts.parent->Some_0;
            &&& plan.participant.session_id == command.session_id
            &&& plan.participant.participant_id == command.participant_id
            &&& plan.participant.parent_participant_id == Some(command.parent_participant_id)
            &&& plan.participant.depth == parent.depth + 1
            &&& plan.participant.template_id == command.template_id
            &&& plan.participant.template_compatibility == command.expected_compatibility
            &&& plan.participant.revision.0 == 1
            &&& is_below(
                plan.policy,
                command,
                facts.template_policy->Some_0,
                facts.parent_policy->Some_0,
            )
            &&& plan.operation.session_id == command.session_id
            &&& plan.operation.operation_id == command.operation_id
            &&& plan.operation.participant_id == command.participant_id
            &&& plan.operation.start_request_id == command.request_id
            &&& plan.operation.input_message_id == command.input_message_id
            &&& plan.operation.input_digest == command.input_digest
            &&& plan.operation.waiting_on_message_id is None
            &&& plan.operation.state is Queued
            &&& plan.operation.revision.0 == 1
            &&& plan.operation.terminal_outcome is None
            &&& plan.operation.created_at == now
            &&& plan.operation.updated_at == now
            &&& carries_input(plan.message, plan.operation, command.envelope_size)
            &&& plan.message.mailbox_sequence == 1
            &&& plan.counter.next_sequence == 2
            &&& plan.counter.queued_bytes == command.envelope_size
            &&& plan.counter.queued_messages == 1
            &&& is_spent(facts.grant, now, plan.grant)
        },
{
    if facts.parent is Some && facts.template_policy is Some {
        let allowed = facts.template_policy->Some_0.allowed_parent_templates@;
        let template = facts.parent->Some_0.template_id;
        if allowed.contains(template) {
            let i = choose|i: int| 0 <= i < allowed.len() && allowed[i] == template;
            assert(allowed[i] == template);
        }
        if exists|i: int| 0 <= i < allowed.len() && #[trigger] allowed[i] == template {
            assert(allowed.contains(template));
        }
    }
}

/// A child that is told of again must still be there with its policy, its operation and its
/// input.
pub proof fn recorded_children_are_checked(
    participant: ParticipantSnapshot,
    policy: AuthorityPolicy,
    operation: OperationSnapshot,
    current_participant: Option<ParticipantSnapshot>,
    current_policy: Option<AuthorityPolicy>,
    current_operation: Option<OperationSnapshot>,
    message: Option<MessageSnapshot>,
    result: Result<(), StoreError>,
)
    requires
        call_ensures(
            validate_spawn_replay,
            (
                participant,
                policy,
                operation,
                current_participant,
                current_policy,
                current_operation,
                message,
            ),
            result,
        ),
    ensures
        result is Ok <==> {
            &&& current_participant == Some(participant)
            &&& current_policy == Some(policy)
            &&& current_operation matches Some(current)
            &&& current.session_id == operation.session_id
            &&& current.operation_id == operation.operation_id
            &&& current.participant_id == operation.participant_id
            &&& current.start_request_id == operation.start_request_id
            &&& current.input_message_id == operation.input_message_id
            &&& current.input_digest == operation.input_digest
            &&& current.created_at == operation.created_at
            &&& message matches Some(input)
            &&& input.session_id == participant.session_id
            &&& input.source == participant.participant_id
            &&& input.destination == participant.participant_id
            &&& input.correlation.operation_id == Some(operation.operation_id)
            &&& input.envelope.body is OperationInput
            &&& input.envelope.body->OperationInput_operation_id == operation.operation_id
            &&& input.envelope.body->OperationInput_input_digest == operation.input_digest
        },
        result matches Err(error) ==> error == StoreError::Corrupt,
{
}

} // verus!
