//! Effects on the outside: reserved, started, and settled once.

use crate::authority::{GrantSnapshot, ResourceScope, ScopedCapability, StoreCapability};
use crate::effect::{
    admit_effect, check_effect_linkage, decode_effect, lease_millis, reserve_effect,
    resolution_authority, resolve_authorized_effect, takeover_effect, transition_effect,
    validate_authorized_effect_replay, EffectClass, EffectEntry, EffectFailure, EffectPhase,
    EffectPlan, EffectResolution, EffectTerminal, EffectTransition, ReserveEffect,
    ResolutionFacts, ResolveAuthorizedEffect, ResolvedEffect, TakeoverEffect,
    UncertaintyResolution,
};
use crate::error::StoreError;
use crate::ids::{OperationId, RequestId};
use crate::laws::hierarchies::is_spent;
use crate::operation::{OperationSnapshot, ParticipantSnapshot};
use crate::time::{lease_end, lease_lasts_its_duration, on_calendar, Timestamp};
use vstd::prelude::*;

verus! {

/// What an effect is, as opposed to what became of it and who looks after it.
pub open spec fn same_effect(before: EffectEntry, after: EffectEntry) -> bool {
    &&& after.request_id == before.request_id
    &&& after.session_id == before.session_id
    &&& after.participant_id == before.participant_id
    &&& after.operation_id == before.operation_id
    &&& after.caller == before.caller
    &&& after.action == before.action
    &&& after.semantic_digest == before.semantic_digest
    &&& after.effect_class == before.effect_class
    &&& after.contract == before.contract
}

/// The same host looks after the effect, for as long as before.
pub open spec fn same_keeper(before: EffectEntry, after: EffectEntry) -> bool {
    &&& after.owner_host == before.owner_host
    &&& after.owner_epoch == before.owner_epoch
    &&& after.lease_expires_at == before.lease_expires_at
}

/// An effect is read back only with an end that fits its phase, and a valid contract.
pub proof fn stored_effects_are_coherent(
    entry: EffectEntry,
    contract_valid: bool,
    result: Result<EffectEntry, StoreError>,
)
    requires
        call_ensures(decode_effect, (entry, contract_valid), result),
    ensures
        result is Ok <==> {
            &&& contract_valid
            &&& entry.phase is Completed <==> (entry.terminal matches Some(
                EffectTerminal::Completed(_),
            ))
            &&& entry.phase is Failed <==> (entry.terminal matches Some(EffectTerminal::Failed(_)))
        },
        result matches Ok(read) ==> read == entry,
        result matches Err(error) ==> error == StoreError::Corrupt,
{
}

/// An effect hangs together with a participant and an operation of its session, the operation
/// being the participant's.
pub proof fn effects_belong_to_their_operation(
    entry: EffectEntry,
    participant: Option<ParticipantSnapshot>,
    operation: Option<OperationSnapshot>,
    result: Result<(), StoreError>,
)
    requires
        call_ensures(check_effect_linkage, (entry, participant, operation), result),
    ensures
        result is Ok <==> {
            &&& participant matches Some(owner)
            &&& owner.session_id == entry.session_id
            &&& operation matches Some(work)
            &&& work.session_id == entry.session_id
            &&& work.participant_id == entry.participant_id
        },
        result matches Err(error) ==> error == StoreError::Corrupt,
{
}

/// A lease lasts whole milliseconds, more than nothing and not more than allowed.
pub proof fn leases_are_whole_milliseconds(
    nanos: u128,
    max_lease_millis: u64,
    contract_valid: bool,
    millis: Option<u64>,
    admitted: Result<u64, StoreError>,
)
    requires
        call_ensures(lease_millis, (nanos, max_lease_millis), millis),
        call_ensures(admit_effect, (contract_valid, nanos, max_lease_millis), admitted),
    ensures
        millis is Some <==> nanos > 0 && nanos < (max_lease_millis + 1) * 1_000_000,
        millis matches Some(millis) ==> millis * 1_000_000 <= nanos < (millis + 1) * 1_000_000,
        admitted is Ok <==> contract_valid && millis is Some,
        admitted matches Ok(lease) ==> millis == Some(lease),
        !contract_valid ==> admitted == Err::<u64, StoreError>(StoreError::Invalid),
        contract_valid && millis is None ==> admitted == Err::<u64, StoreError>(
            StoreError::LeaseTooLong,
        ),
{
}

/// The participant and its operation are in the session, and the operation runs or waits.
pub open spec fn can_have_effects(
    command: ReserveEffect,
    participant: Option<ParticipantSnapshot>,
    operation: Option<OperationSnapshot>,
) -> bool {
    &&& participant matches Some(owner)
    &&& owner.session_id == command.session_id
    &&& operation matches Some(work)
    &&& work.session_id == command.session_id
    &&& work.participant_id == command.participant_id
    &&& work.state is Running || work.state is Waiting
}

/// A new effect is reserved in the words of the command, for the caller, and for as long as was
/// asked; nothing has happened yet.
pub proof fn effects_are_reserved_first(
    command: ReserveEffect,
    participant: Option<ParticipantSnapshot>,
    operation: Option<OperationSnapshot>,
    now: Timestamp,
    result: Result<EffectPlan, StoreError>,
)
    requires
        call_ensures(
            reserve_effect,
            (command, participant, operation, None::<EffectEntry>, now),
            result,
        ),
        now.wf(),
    ensures
        result matches Ok(plan) ==> {
            &&& can_have_effects(command, participant, operation)
            &&& plan matches EffectPlan::Create(entry)
            &&& entry.request_id == command.request_id
            &&& entry.session_id == command.session_id
            &&& entry.participant_id == command.participant_id
            &&& entry.operation_id == command.operation_id
            &&& entry.caller == command.caller
            &&& entry.action == command.action
            &&& entry.semantic_digest == command.semantic_digest
            &&& entry.effect_class == command.effect_class
            &&& entry.contract == command.contract
            &&& entry.phase is Reserved
            &&& entry.owner_host == command.caller
            &&& entry.owner_epoch == command.owner_epoch
            &&& entry.lease_expires_at.instant() == now.instant() + command.lease_millis
                * 1_000_000
            &&& entry.terminal is None
            &&& entry.revision.0 == 1
        },
        can_have_effects(command, participant, operation) && command.lease_millis <= i64::MAX
            && on_calendar(now.seconds as int) && on_calendar(
            (now.instant() + command.lease_millis * 1_000_000) / 1_000_000_000,
        ) ==> result is Ok,
        participant is None ==> result == Err::<EffectPlan, StoreError>(
            StoreError::ParticipantNotFound { participant_id: command.participant_id },
        ),
        participant is Some && operation is None ==> result == Err::<EffectPlan, StoreError>(
            StoreError::OperationNotFound { operation_id: command.operation_id },
        ),
        participant is Some && operation is Some && !can_have_effects(
            command,
            participant,
            operation,
        ) ==> result == Err::<EffectPlan, StoreError>(StoreError::Invalid),
{
    if lease_end(now, command.lease_millis) is Ok {
        lease_lasts_its_duration(now, command.lease_millis, command.lease_millis);
    }
}

/// Asking again finds the effect as it is, except that one that was started and whose time is up
/// is uncertain from then on. Asking for another effect under its identity is a conflict.
pub proof fn effects_are_found_again(
    command: ReserveEffect,
    participant: Option<ParticipantSnapshot>,
    operation: Option<OperationSnapshot>,
    entry: EffectEntry,
    now: Timestamp,
    result: Result<EffectPlan, StoreError>,
)
    requires
        call_ensures(
            reserve_effect,
            (command, participant, operation, Some(entry), now),
            result,
        ),
        can_have_effects(command, participant, operation),
    ensures
        ({
            let same = {
                &&& entry.session_id == command.session_id
                &&& entry.caller == command.caller
                &&& entry.action == command.action
                &&& entry.semantic_digest == command.semantic_digest
                &&& entry.effect_class == command.effect_class
                &&& entry.participant_id == command.participant_id
                &&& entry.operation_id == command.operation_id
                &&& entry.contract == command.contract
            };
            let lapsed = entry.phase is Started && !now.spec_before(entry.lease_expires_at);
            &&& !same ==> result == Err::<EffectPlan, StoreError>(
                StoreError::RequestConflict { request_id: command.request_id },
            )
            &&& same && !lapsed ==> result == Ok::<EffectPlan, StoreError>(
                EffectPlan::Unchanged(entry),
            )
            &&& same && lapsed && entry.revision.0 < u64::MAX ==> {
                &&& result matches Ok(EffectPlan::Update(after))
                &&& same_effect(entry, after)
                &&& same_keeper(entry, after)
                &&& after.phase is Uncertain
                &&& after.terminal == entry.terminal
                &&& after.revision.0 == entry.revision.0 + 1
            }
        }),
{
}

/// An effect is started by its keeper, before its time is up, from a reservation or a renewed
/// permission; and settled by its keeper, once started, as it is reported.
pub proof fn effects_are_settled_as_reported(
    entry: EffectEntry,
    command: EffectTransition,
    now: Timestamp,
    result: Result<EffectEntry, StoreError>,
)
    requires
        call_ensures(transition_effect, (Some(entry), command, now), result),
    ensures
        result is Ok <==> {
            &&& entry.owner_host == command.caller
            &&& entry.owner_epoch == command.owner_epoch
            &&& entry.revision == command.expected_revision
            &&& entry.revision.0 < u64::MAX
            &&& command.resolution is None ==> (entry.phase is Reserved || entry.phase
                is RetryAuthorized) && now.spec_before(entry.lease_expires_at)
            &&& command.resolution is Some ==> entry.phase is Started
        },
        result matches Ok(after) ==> {
            &&& same_effect(entry, after)
            &&& same_keeper(entry, after)
            &&& after.revision.0 == entry.revision.0 + 1
            &&& match command.resolution {
                None => after.phase is Started && after.terminal == entry.terminal,
                Some(EffectResolution::Uncertain) => after.phase is Uncertain && after.terminal
                    == entry.terminal,
                Some(EffectResolution::Completed(value)) => after.phase is Completed
                    && after.terminal == Some(EffectTerminal::Completed(Some(value))),
                Some(EffectResolution::Failed(value)) => after.phase is Failed && after.terminal
                    == Some(EffectTerminal::Failed(EffectFailure::Reported(value))),
            }
        },
        entry.revision.0 < u64::MAX && result is Err ==> result == Err::<EffectEntry, StoreError>(
            StoreError::Invalid,
        ),
{
}

/// An effect whose time is up is taken over by another host, if it was not started; if it was,
/// nobody knows what came of it.
pub proof fn lapsed_effects_are_taken_over(
    entry: EffectEntry,
    command: TakeoverEffect,
    now: Timestamp,
    result: Result<EffectEntry, StoreError>,
)
    requires
        call_ensures(takeover_effect, (Some(entry), command, now), result),
        now.wf(),
    ensures
        result matches Ok(after) ==> {
            &&& !now.spec_before(entry.lease_expires_at)
            &&& entry.revision == command.expected_revision
            &&& entry.phase is Reserved || entry.phase is Started
            &&& same_effect(entry, after)
            &&& after.terminal == entry.terminal
            &&& after.revision.0 == entry.revision.0 + 1
            &&& entry.phase is Reserved ==> {
                &&& after.phase is Reserved
                &&& after.owner_host == command.caller
                &&& after.owner_epoch == command.owner_epoch
                &&& after.lease_expires_at.instant() == now.instant() + command.lease_millis
                    * 1_000_000
            }
            &&& entry.phase is Started ==> after.phase is Uncertain && same_keeper(entry, after)
        },
        now.spec_before(entry.lease_expires_at) || entry.revision != command.expected_revision || (
        !(entry.phase is Reserved) && !(entry.phase is Started)) ==> result == Err::<
            EffectEntry,
            StoreError,
        >(StoreError::Invalid),
        !now.spec_before(entry.lease_expires_at) && entry.revision == command.expected_revision
            && entry.revision.0 < u64::MAX && entry.phase is Started ==> result is Ok,
        !now.spec_before(entry.lease_expires_at) && entry.revision == command.expected_revision
            && entry.revision.0 < u64::MAX && entry.phase is Reserved && command.lease_millis
            <= i64::MAX && on_calendar(now.seconds as int) && on_calendar(
            (now.instant() + command.lease_millis * 1_000_000) / 1_000_000_000,
        ) ==> result is Ok,
{
    if lease_end(now, command.lease_millis) is Ok {
        lease_lasts_its_duration(now, command.lease_millis, command.lease_millis);
    }
}

/// An uncertain effect of an uncertain operation can be settled by a participant that may do so:
/// it is completed, failed for good, or tried once more, as far as its contract allows.
pub proof fn uncertain_effects_are_settled_under_their_contract(
    command: ResolveAuthorizedEffect,
    facts: ResolutionFacts,
    now: Timestamp,
    result: Result<ResolvedEffect, StoreError>,
    requested: ScopedCapability,
)
    requires
        call_ensures(resolve_authorized_effect, (command, facts, now), result),
        call_ensures(resolution_authority, (command.operation_id,), requested),
        now.wf(),
    ensures
        requested.capability is ResolveUncertainty,
        requested.scope == ResourceScope::Operation(command.operation_id),
        result matches Ok(resolved) ==> {
            let before = facts.effect->Some_0;
            let after = resolved.effect;
            &&& may_be_settled(command, facts)
            &&& same_effect(before, after)
            &&& after.revision.0 == before.revision.0 + 1
            &&& is_spent(facts.grant, now, resolved.grant)
            &&& command.resolution is ConfirmCompleted ==> after.phase is Completed
                && after.terminal == Some(EffectTerminal::Completed(None)) && same_keeper(
                before,
                after,
            )
            &&& command.resolution is DoNotRetry ==> after.phase is Failed && after.terminal
                == Some(EffectTerminal::Failed(EffectFailure::DoNotRetry)) && same_keeper(
                before,
                after,
            )
            &&& command.resolution is RetryWithEffectProof ==> {
                &&& after.phase is RetryAuthorized
                &&& after.terminal is None
                &&& after.owner_host == command.caller
                &&& after.owner_epoch == command.owner_epoch
                &&& after.lease_expires_at.instant() == now.instant() + 10_000 * 1_000_000
            }
        },
        !may_be_settled(command, facts) ==> result == Err::<ResolvedEffect, StoreError>(
            StoreError::Invalid,
        ),
        may_be_settled(command, facts) && facts.effect->Some_0.revision.0 < u64::MAX && !(
        command.resolution is RetryWithEffectProof) ==> result is Ok,
        may_be_settled(command, facts) && facts.effect->Some_0.revision.0 < u64::MAX && on_calendar(
            now.seconds as int,
        ) && on_calendar((now.instant() + 10_000 * 1_000_000) / 1_000_000_000) ==> result is Ok,
{
    if lease_end(now, 10_000) is Ok {
        lease_lasts_its_duration(now, 10_000, 10_000);
    }
}

/// The effect and its operation are uncertain, are the ones that are named, and the contract
/// allows to settle it in this way with the grant at hand.
pub open spec fn may_be_settled(command: ResolveAuthorizedEffect, facts: ResolutionFacts) -> bool {
    &&& facts.effect matches Some(effect)
    &&& facts.operation matches Some(operation)
    &&& effect.phase is Uncertain
    &&& effect.revision == command.expected_effect_revision
    &&& effect.session_id == command.session_id
    &&& effect.participant_id == command.participant_id
    &&& effect.operation_id == operation.operation_id
    &&& operation.session_id == command.session_id
    &&& operation.participant_id == command.participant_id
    &&& operation.state is Uncertain
    &&& facts.grant matches Some(grant)
    &&& grant.consumed_at is None
    &&& facts.authorized
    &&& command.resolution is DoNotRetry ==> effect.contract.allow_do_not_retry
    &&& !(command.resolution is DoNotRetry) ==> facts.proof_allowed
}

/// A settling that is told again must have left this effect, with the phase it was settled to.
pub proof fn recorded_settlings_are_checked(
    command: ResolveAuthorizedEffect,
    effect_request_id: RequestId,
    recorded: EffectEntry,
    recorded_operation: OperationSnapshot,
    current: Option<EffectEntry>,
    result: Result<(), StoreError>,
)
    requires
        call_ensures(
            validate_authorized_effect_replay,
            (command, effect_request_id, recorded, recorded_operation, current),
            result,
        ),
    ensures
        result is Ok <==> {
            &&& current == Some(recorded)
            &&& recorded.request_id == effect_request_id
            &&& recorded.session_id == command.session_id
            &&& recorded.participant_id == command.participant_id
            &&& recorded.operation_id == command.operation_id
            &&& recorded_operation.operation_id == command.operation_id
            &&& recorded_operation.session_id == command.session_id
            &&& recorded_operation.participant_id == command.participant_id
            &&& command.resolution is ConfirmCompleted ==> recorded.phase is Completed
            &&& command.resolution is DoNotRetry ==> recorded.phase is Failed
            &&& command.resolution is RetryWithEffectProof ==> recorded.phase is RetryAuthorized
        },
        result matches Err(error) ==> error == StoreError::Corrupt,
{
}

} // verus!
