//! The request ledger: every mutating request is carried out once, and repeated requests are
//! answered from what was recorded.

use crate::error::{FailureWire, Refusal, StoreError};
use crate::ids::{
    decode_digest, digest_bytes, is_digest, is_identity, parse_host_id,
    read_identity, Digest, FencingEpoch, HostId, RequestId, SessionId,
};
use crate::session::{authorization, authorize, Authorization, SessionRow};
use crate::text::{same_text, text_mark, uuid_text};
use crate::time::Timestamp;
use vstd::prelude::*;

verus! {

/// Whether a recorded success changed anything.
#[derive(Clone, Copy, PartialEq, Eq, Debug, Structural)]
pub enum StoredEffect {
    Applied,
    Unchanged,
}

/// Who asks, and under which identity.
#[derive(Clone, Copy, PartialEq, Eq, Debug, Structural)]
pub struct RequestContext {
    pub request_id: RequestId,
    pub caller: HostId,
}

/// A mutating request: its context, the name of its action, and the digest of its meaning.
#[derive(PartialEq, Eq, Debug)]
pub struct Request {
    pub context: RequestContext,
    pub action: String,
    pub digest: Digest,
}

/// A recorded request, as it is stored.
pub struct LedgerRow {
    /// The text of the identity of the caller.
    pub caller: String,
    pub action: String,
    /// The bytes of the digest.
    pub digest: Vec<u8>,
    /// `succeeded` or `failed`.
    pub outcome: String,
    /// The recorded failure, where the recorded result can be read as one.
    pub failure: Option<FailureWire>,
}

/// Whether a recorded request is the one that is asked for again.
pub open spec fn same_request(request: Request, row: LedgerRow) -> bool {
    &&& row.caller@ == uuid_text(request.context.caller.0)
    &&& row.action@ == request.action@
    &&& row.digest@ == digest_bytes(request.digest)
}

/// What the ledger says of a request: `true` where a success was recorded for it, `false` where
/// it is new, and an error where it failed before, or its identity is taken.
///
/// `taken` tells whether another table uses the identity.
pub open spec fn replay_outcome(
    request: Request,
    row: Option<LedgerRow>,
    taken: bool,
) -> Result<bool, StoreError> {
    match row {
        None => if taken {
            Err(StoreError::RequestConflict { request_id: request.context.request_id })
        } else {
            Ok(false)
        },
        Some(row) => if !same_request(request, row) {
            Err(StoreError::RequestConflict { request_id: request.context.request_id })
        } else if row.outcome@ == "failed"@ {
            match row.failure {
                Some(wire) => Err(crate::error::error_of(wire)),
                None => Err(StoreError::Corrupt),
            }
        } else if row.outcome@ == "succeeded"@ {
            Ok(true)
        } else {
            Err(StoreError::Corrupt)
        },
    }
}

/// Asks the ledger about a request.
pub fn replay_bytes(request: &Request, row: Option<LedgerRow>, taken: bool) -> (result: Result<
    bool,
    StoreError,
>)
    ensures
        result == replay_outcome(*request, row, taken),
{
    match row {
        None => if taken {
            Err(StoreError::RequestConflict { request_id: request.context.request_id })
        } else {
            Ok(false)
        },
        Some(row) => {
            if !is_identity(row.caller.as_str(), request.context.caller.0) || !same_text(
                row.action.as_str(),
                request.action.as_str(),
            ) || !is_digest(&row.digest, request.digest) {
                return Err(StoreError::RequestConflict { request_id: request.context.request_id });
            }
            if same_text(row.outcome.as_str(), "failed") {
                match row.failure {
                    Some(wire) => Err(StoreError::from(wire)),
                    None => Err(StoreError::Corrupt),
                }
            } else if same_text(row.outcome.as_str(), "succeeded") {
                Ok(true)
            } else {
                Err(StoreError::Corrupt)
            }
        },
    }
}

/// A recorded failure is what the same request gets again, whatever else has changed; a recorded
/// success is found again; and another request under the same identity conflicts.
pub proof fn recorded_requests_are_final(
    request: Request,
    other: Request,
    row: LedgerRow,
    error: StoreError,
    taken: bool,
)
    requires
        same_request(request, row),
    ensures
        row.outcome@ == "failed"@ && row.failure == Some(crate::error::wire_of(error))
            ==> replay_outcome(request, Some(row), taken) == Err::<bool, StoreError>(error),
        row.outcome@ == "succeeded"@ ==> replay_outcome(request, Some(row), taken) == Ok::<
            bool,
            StoreError,
        >(true),
        !same_request(other, row) ==> replay_outcome(other, Some(row), taken) == Err::<
            bool,
            StoreError,
        >(StoreError::RequestConflict { request_id: other.context.request_id }),
{
    reveal_strlit("failed");
    reveal_strlit("succeeded");
    assert("failed"@.len() != "succeeded"@.len());
    crate::error::failures_read_back(error, crate::error::wire_of(error));
}

/// How a request against an open session begins.
pub enum Begin {
    /// It was carried out before; the recorded result is the answer.
    Replayed,
    /// It goes on at the given instant, which is also the new time floor of the session.
    Proceed { now: Timestamp },
    /// It is refused; a floor that is given is written with the refusal.
    Refused { refusal: Refusal, time_floor: Option<Timestamp> },
}

/// How a request against an open session begins: the ledger answers first, and a new request
/// must come from the owner of the open session. A refusal of the owner check is recorded.
pub open spec fn beginning(
    request: Request,
    row: Option<LedgerRow>,
    taken: bool,
    session_id: SessionId,
    session: Option<SessionRow>,
    epoch: FencingEpoch,
    closing: bool,
    observed: Timestamp,
) -> Begin {
    match replay_outcome(request, row, taken) {
        Err(error) => Begin::Refused {
            refusal: Refusal { error, recorded: false },
            time_floor: None,
        },
        Ok(true) => Begin::Replayed,
        Ok(false) => {
            let granted = authorization(
                session_id,
                session,
                request.context.caller,
                epoch,
                closing,
                observed,
            );
            match granted.refusal {
                Some(error) => Begin::Refused {
                    refusal: Refusal { error, recorded: true },
                    time_floor: granted.time_floor,
                },
                None => Begin::Proceed { now: granted.time_floor->Some_0 },
            }
        },
    }
}

/// Begins a request against an open session.
pub fn begin_request(
    request: &Request,
    row: Option<LedgerRow>,
    taken: bool,
    session_id: SessionId,
    session: Option<&SessionRow>,
    epoch: FencingEpoch,
    closing: bool,
    observed: Timestamp,
) -> (begin: Begin)
    ensures
        begin == beginning(
            *request,
            row,
            taken,
            session_id,
            match session {
                Some(session) => Some(*session),
                None => None,
            },
            epoch,
            closing,
            observed,
        ),
{
    match replay_bytes(request, row, taken) {
        Err(error) => Begin::Refused {
            refusal: Refusal { error, recorded: false },
            time_floor: None,
        },
        Ok(true) => Begin::Replayed,
        Ok(false) => {
            let granted: Authorization = authorize(
                session_id,
                session,
                request.context.caller,
                epoch,
                closing,
                observed,
            );
            match (granted.refusal, granted.time_floor) {
                (Some(error), time_floor) => Begin::Refused {
                    refusal: Refusal { error, recorded: true },
                    time_floor,
                },
                (None, Some(now)) => Begin::Proceed { now },
                (None, None) => Begin::Refused {
                    refusal: Refusal { error: StoreError::Corrupt, recorded: false },
                    time_floor: None,
                },
            }
        },
    }
}

/// Refuses an identity that another table uses.
pub fn reject_request_collision(request_id: RequestId, taken: bool) -> (result: Result<
    (),
    StoreError,
>)
    ensures
        result == (if taken {
            Err::<(), StoreError>(StoreError::RequestConflict { request_id })
        } else {
            Ok(())
        }),
{
    if taken {
        Err(StoreError::RequestConflict { request_id })
    } else {
        Ok(())
    }
}

/// Refuses a mutation that names itself as its effect, or whose identity an effect uses.
pub fn reject_effect_identity_collision(
    mutation_request_id: RequestId,
    effect_request_id: RequestId,
    taken: bool,
) -> (result: Result<(), StoreError>)
    ensures
        result == (if mutation_request_id == effect_request_id || taken {
            Err::<(), StoreError>(StoreError::RequestConflict { request_id: mutation_request_id })
        } else {
            Ok(())
        }),
{
    if mutation_request_id == effect_request_id || taken {
        Err(StoreError::RequestConflict { request_id: mutation_request_id })
    } else {
        Ok(())
    }
}

/// Refuses an approval effect that is named like the mutation or like anything recorded.
pub fn approval_effect_identity_available(
    mutation_request_id: RequestId,
    effect_id: RequestId,
    taken: bool,
) -> (result: Result<(), StoreError>)
    ensures
        result == (if mutation_request_id == effect_id || taken {
            Err::<(), StoreError>(StoreError::RequestConflict { request_id: effect_id })
        } else {
            Ok(())
        }),
{
    if mutation_request_id == effect_id || taken {
        Err(StoreError::RequestConflict { request_id: effect_id })
    } else {
        Ok(())
    }
}

/// A recorded mutation of an effect or a tool invocation, as it is stored: the text of the
/// identity of what it changed, that of the caller, and the bytes of the digest.
pub struct RecordedMutation {
    pub subject: String,
    pub caller: String,
    pub digest: Vec<u8>,
}

/// Whether a recorded mutation is the one that is asked for again.
pub open spec fn same_mutation(
    context: RequestContext,
    subject: u128,
    digest: Digest,
    row: RecordedMutation,
) -> bool {
    &&& row.subject@ == uuid_text(subject)
    &&& row.caller@ == uuid_text(context.caller.0)
    &&& row.digest@ == digest_bytes(digest)
}

/// Whether a mutation was carried out before: another mutation under the same identity
/// conflicts.
pub fn mutation_replay(
    context: RequestContext,
    subject: u128,
    digest: Digest,
    recorded: Option<RecordedMutation>,
) -> (result: Result<bool, StoreError>)
    ensures
        match recorded {
            None => result == Ok::<bool, StoreError>(false),
            Some(row) => if same_mutation(context, subject, digest, row) {
                result == Ok::<bool, StoreError>(true)
            } else {
                result == Err::<bool, StoreError>(
                    StoreError::RequestConflict { request_id: context.request_id },
                )
            },
        },
{
    match recorded {
        None => Ok(false),
        Some(row) => if is_identity(row.subject.as_str(), subject) && is_identity(
            row.caller.as_str(),
            context.caller.0,
        ) && is_digest(&row.digest, digest) {
            Ok(true)
        } else {
            Err(StoreError::RequestConflict { request_id: context.request_id })
        },
    }
}

/// The actions whose recorded results can be read back.
#[derive(Clone, Copy, PartialEq, Eq, Debug, Structural)]
pub enum StoreAction {
    OpenSession,
    CloseSession,
    AcquireOwnership,
    RenewOwnership,
    ReleaseOwnership,
    PrepareLaunch,
    AttachLaunch,
    TransitionLaunch,
    CreateRootParticipant,
    CreateChildParticipant,
    StartOperation,
    TransitionOperation,
    EnqueueMessage,
    LeaseNextMessage,
    TransitionMessageDelivery,
    PutAuthorityPolicy,
    IssueGrant,
    RevokeGrant,
    CheckAuthorityEffect,
    CreateAuthorizedChild,
    ApplyHierarchyEffect,
    RegisterAuthorityTemplatePolicy,
}

/// The stored name of an action.
pub open spec fn action_text(value: StoreAction) -> Seq<char> {
    match value {
        StoreAction::OpenSession => "session.open"@,
        StoreAction::CloseSession => "session.close"@,
        StoreAction::AcquireOwnership => "ownership.acquire"@,
        StoreAction::RenewOwnership => "ownership.renew"@,
        StoreAction::ReleaseOwnership => "ownership.release"@,
        StoreAction::PrepareLaunch => "instance.prepare_launch"@,
        StoreAction::AttachLaunch => "instance.attach_launch"@,
        StoreAction::TransitionLaunch => "instance.transition_launch"@,
        StoreAction::CreateRootParticipant => "participant.create_root"@,
        StoreAction::CreateChildParticipant => "participant.create_child"@,
        StoreAction::StartOperation => "operation.start"@,
        StoreAction::TransitionOperation => "operation.transition"@,
        StoreAction::EnqueueMessage => "message.enqueue"@,
        StoreAction::LeaseNextMessage => "message.lease_next"@,
        StoreAction::TransitionMessageDelivery => "message.transition_delivery"@,
        StoreAction::PutAuthorityPolicy => "authority.put_policy"@,
        StoreAction::IssueGrant => "authority.issue_grant"@,
        StoreAction::RevokeGrant => "authority.revoke_grant"@,
        StoreAction::CheckAuthorityEffect => "authority.check_effect"@,
        StoreAction::CreateAuthorizedChild => "authority.create_child"@,
        StoreAction::ApplyHierarchyEffect => "hierarchy.apply_effect"@,
        StoreAction::RegisterAuthorityTemplatePolicy => "authority.register_template_policy"@,
    }
}

/// The stored name of an action.
pub fn action_name(value: StoreAction) -> (name: &'static str)
    ensures
        name@ == action_text(value),
{
    match value {
        StoreAction::OpenSession => "session.open",
        StoreAction::CloseSession => "session.close",
        StoreAction::AcquireOwnership => "ownership.acquire",
        StoreAction::RenewOwnership => "ownership.renew",
        StoreAction::ReleaseOwnership => "ownership.release",
        StoreAction::PrepareLaunch => "instance.prepare_launch",
        StoreAction::AttachLaunch => "instance.attach_launch",
        StoreAction::TransitionLaunch => "instance.transition_launch",
        StoreAction::CreateRootParticipant => "participant.create_root",
        StoreAction::CreateChildParticipant => "participant.create_child",
        StoreAction::StartOperation => "operation.start",
        StoreAction::TransitionOperation => "operation.transition",
        StoreAction::EnqueueMessage => "message.enqueue",
        StoreAction::LeaseNextMessage => "message.lease_next",
        StoreAction::TransitionMessageDelivery => "message.transition_delivery",
        StoreAction::PutAuthorityPolicy => "authority.put_policy",
        StoreAction::IssueGrant => "authority.issue_grant",
        StoreAction::RevokeGrant => "authority.revoke_grant",
        StoreAction::CheckAuthorityEffect => "authority.check_effect",
        StoreAction::CreateAuthorizedChild => "authority.create_child",
        StoreAction::ApplyHierarchyEffect => "hierarchy.apply_effect",
        StoreAction::RegisterAuthorityTemplatePolicy => "authority.register_template_policy",
    }
}

/// Reads the stored name of an action; any other text is corruption.
pub fn parse_action(value: &str) -> (result: Result<StoreAction, StoreError>)
    ensures
        match result {
            Ok(found) => action_text(found) == value@,
            Err(error) => error == StoreError::Corrupt && forall|other: StoreAction|
                #[trigger] action_text(other) != value@,
        },
{
    if same_text(value, "session.open") {
        Ok(StoreAction::OpenSession)
    } else if same_text(value, "session.close") {
        Ok(StoreAction::CloseSession)
    } else if same_text(value, "ownership.acquire") {
        Ok(StoreAction::AcquireOwnership)
    } else if same_text(value, "ownership.renew") {
        Ok(StoreAction::RenewOwnership)
    } else if same_text(value, "ownership.release") {
        Ok(StoreAction::ReleaseOwnership)
    } else if same_text(value, "instance.prepare_launch") {
        Ok(StoreAction::PrepareLaunch)
    } else if same_text(value, "instance.attach_launch") {
        Ok(StoreAction::AttachLaunch)
    } else if same_text(value, "instance.transition_launch") {
        Ok(StoreAction::TransitionLaunch)
    } else if same_text(value, "participant.create_root") {
        Ok(StoreAction::CreateRootParticipant)
    } else if same_text(value, "participant.create_child") {
        Ok(StoreAction::CreateChildParticipant)
    } else if same_text(value, "operation.start") {
        Ok(StoreAction::StartOperation)
    } else if same_text(value, "operation.transition") {
        Ok(StoreAction::TransitionOperation)
    } else if same_text(value, "message.enqueue") {
        Ok(StoreAction::EnqueueMessage)
    } else if same_text(value, "message.lease_next") {
        Ok(StoreAction::LeaseNextMessage)
    } else if same_text(value, "message.transition_delivery") {
        Ok(StoreAction::TransitionMessageDelivery)
    } else if same_text(value, "authority.put_policy") {
        Ok(StoreAction::PutAuthorityPolicy)
    } else if same_text(value, "authority.issue_grant") {
        Ok(StoreAction::IssueGrant)
    } else if same_text(value, "authority.revoke_grant") {
        Ok(StoreAction::RevokeGrant)
    } else if same_text(value, "authority.check_effect") {
        Ok(StoreAction::CheckAuthorityEffect)
    } else if same_text(value, "authority.create_child") {
        Ok(StoreAction::CreateAuthorizedChild)
    } else if same_text(value, "hierarchy.apply_effect") {
        Ok(StoreAction::ApplyHierarchyEffect)
    } else if same_text(value, "authority.register_template_policy") {
        Ok(StoreAction::RegisterAuthorityTemplatePolicy)
    } else {
        Err(StoreError::Corrupt)
    }
}

/// A stored name stands for one value only, so a name that was written is read back as the
/// value it was written for.
pub proof fn action_names_are_distinct(left: StoreAction, right: StoreAction)
    requires
        action_text(left) == action_text(right),
    ensures
        left == right,
{
    reveal_strlit("session.open");
    reveal_strlit("session.close");
    reveal_strlit("ownership.acquire");
    reveal_strlit("ownership.renew");
    reveal_strlit("ownership.release");
    reveal_strlit("instance.prepare_launch");
    reveal_strlit("instance.attach_launch");
    reveal_strlit("instance.transition_launch");
    reveal_strlit("participant.create_root");
    reveal_strlit("participant.create_child");
    reveal_strlit("operation.start");
    reveal_strlit("operation.transition");
    reveal_strlit("message.enqueue");
    reveal_strlit("message.lease_next");
    reveal_strlit("message.transition_delivery");
    reveal_strlit("authority.put_policy");
    reveal_strlit("authority.issue_grant");
    reveal_strlit("authority.revoke_grant");
    reveal_strlit("authority.check_effect");
    reveal_strlit("authority.create_child");
    reveal_strlit("hierarchy.apply_effect");
    reveal_strlit("authority.register_template_policy");
    assert(text_mark(action_text(left)) == text_mark(action_text(right)));
}

/// What a recorded result is.
#[derive(Clone, Copy, PartialEq, Eq, Debug, Structural)]
pub enum StoredResultKind {
    Session,
    OwnershipLease,
    Ownership,
    Launch,
    Participant,
    Operation,
    Message,
    AuthorityPolicy,
    Grant,
    AuthorityEffect,
    AuthorizedChild,
    HierarchyEffect,
    AuthorityTemplatePolicy,
}

/// What the recorded result of an action is.
pub open spec fn result_kind(action: StoreAction) -> StoredResultKind {
    match action {
        StoreAction::OpenSession | StoreAction::CloseSession => StoredResultKind::Session,
        StoreAction::AcquireOwnership | StoreAction::RenewOwnership => {
            StoredResultKind::OwnershipLease
        },
        StoreAction::ReleaseOwnership => StoredResultKind::Ownership,
        StoreAction::PrepareLaunch | StoreAction::AttachLaunch | StoreAction::TransitionLaunch => {
            StoredResultKind::Launch
        },
        StoreAction::CreateRootParticipant | StoreAction::CreateChildParticipant => {
            StoredResultKind::Participant
        },
        StoreAction::StartOperation | StoreAction::TransitionOperation => {
            StoredResultKind::Operation
        },
        StoreAction::EnqueueMessage
        | StoreAction::LeaseNextMessage
        | StoreAction::TransitionMessageDelivery => {
            StoredResultKind::Message
        },
        StoreAction::PutAuthorityPolicy => StoredResultKind::AuthorityPolicy,
        StoreAction::IssueGrant | StoreAction::RevokeGrant => StoredResultKind::Grant,
        StoreAction::CheckAuthorityEffect => StoredResultKind::AuthorityEffect,
        StoreAction::CreateAuthorizedChild => StoredResultKind::AuthorizedChild,
        StoreAction::ApplyHierarchyEffect => StoredResultKind::HierarchyEffect,
        StoreAction::RegisterAuthorityTemplatePolicy => StoredResultKind::AuthorityTemplatePolicy,
    }
}

/// What the recorded result of an action is.
pub fn stored_result_kind(action: StoreAction) -> (kind: StoredResultKind)
    ensures
        kind == result_kind(action),
{
    match action {
        StoreAction::OpenSession | StoreAction::CloseSession => StoredResultKind::Session,
        StoreAction::AcquireOwnership | StoreAction::RenewOwnership => {
            StoredResultKind::OwnershipLease
        },
        StoreAction::ReleaseOwnership => StoredResultKind::Ownership,
        StoreAction::PrepareLaunch | StoreAction::AttachLaunch | StoreAction::TransitionLaunch => {
            StoredResultKind::Launch
        },
        StoreAction::CreateRootParticipant | StoreAction::CreateChildParticipant => {
            StoredResultKind::Participant
        },
        StoreAction::StartOperation | StoreAction::TransitionOperation => {
            StoredResultKind::Operation
        },
        StoreAction::EnqueueMessage
        | StoreAction::LeaseNextMessage
        | StoreAction::TransitionMessageDelivery => {
            StoredResultKind::Message
        },
        StoreAction::PutAuthorityPolicy => StoredResultKind::AuthorityPolicy,
        StoreAction::IssueGrant | StoreAction::RevokeGrant => StoredResultKind::Grant,
        StoreAction::CheckAuthorityEffect => StoredResultKind::AuthorityEffect,
        StoreAction::CreateAuthorizedChild => StoredResultKind::AuthorizedChild,
        StoreAction::ApplyHierarchyEffect => StoredResultKind::HierarchyEffect,
        StoreAction::RegisterAuthorityTemplatePolicy => StoredResultKind::AuthorityTemplatePolicy,
    }
}

/// A recorded request, read back as far as its result.
#[derive(PartialEq, Eq, Debug)]
pub enum StoredOutcome {
    Failed(StoreError),
    Succeeded { effect: StoredEffect, kind: StoredResultKind },
}

/// A recorded request that was read back.
#[derive(PartialEq, Eq, Debug)]
pub struct StoredRequest {
    pub request_id: RequestId,
    pub caller: HostId,
    pub action: StoreAction,
    pub digest: Digest,
    pub outcome: StoredOutcome,
}

/// The recorded effect with a name.
pub open spec fn effect_named(name: Option<Seq<char>>) -> Option<StoredEffect> {
    if name == Some("applied"@) {
        Some(StoredEffect::Applied)
    } else if name == Some("unchanged"@) {
        Some(StoredEffect::Unchanged)
    } else {
        None
    }
}

/// The outcome that a recorded request tells.
pub open spec fn stored_outcome(
    action: StoreAction,
    outcome: Seq<char>,
    effect: Option<Seq<char>>,
    failure: Option<FailureWire>,
) -> Result<StoredOutcome, StoreError> {
    if outcome == "failed"@ {
        match failure {
            Some(wire) => Ok(StoredOutcome::Failed(crate::error::error_of(wire))),
            None => Err(StoreError::Corrupt),
        }
    } else if outcome == "succeeded"@ {
        match effect_named(effect) {
            Some(effect) => Ok(
                StoredOutcome::Succeeded { effect, kind: result_kind(action) },
            ),
            None => Err(StoreError::Corrupt),
        }
    } else {
        Err(StoreError::Corrupt)
    }
}

/// Reads a recorded request back.
///
/// `accepted` tells whether the caller is accepted as a host, and `effect` is the recorded effect,
/// where there is one. `well_formed` tells whether a recorded result can be read as what its action
/// gives, and all of it is accepted together. Nothing that is recorded is given a default: a
/// caller, an action, a digest, an outcome, an effect or a result that is not one is corruption.
pub fn decode_stored_request(
    request_id: RequestId,
    row: LedgerRow,
    accepted: bool,
    effect: Option<&str>,
    well_formed: bool,
) -> (result: Result<StoredRequest, StoreError>)
    ensures
        match result {
            Ok(stored) => {
                &&& well_formed
                &&& stored.request_id == request_id
                &&& read_identity(row.caller@, accepted) == Some(stored.caller.0)
                &&& row.digest@ == digest_bytes(stored.digest)
                &&& action_text(stored.action) == row.action@
                &&& stored_outcome(
                    stored.action,
                    row.outcome@,
                    match effect {
                        Some(effect) => Some(effect@),
                        None => None,
                    },
                    row.failure,
                ) == Ok::<StoredOutcome, StoreError>(stored.outcome)
            },
            Err(error) => {
                &&& error == StoreError::Corrupt
                &&& !well_formed || read_identity(row.caller@, accepted) is None
                    || row.digest.len() != 32 || (forall|action: StoreAction| #[trigger]
                    action_text(action) == row.action@ ==> stored_outcome(
                        action,
                        row.outcome@,
                        match effect {
                            Some(effect) => Some(effect@),
                            None => None,
                        },
                        row.failure,
                    ) is Err)
            },
        },
{
    let caller: HostId = match parse_host_id(row.caller.as_str(), accepted) {
        Ok(caller) => caller,
        Err(error) => {
            return Err(error);
        },
    };
    let action: StoreAction = match parse_action(row.action.as_str()) {
        Ok(action) => action,
        Err(error) => {
            return Err(error);
        },
    };
    let digest: Digest = match decode_digest(&row.digest) {
        Ok(digest) => digest,
        Err(error) => {
            return Err(error);
        },
    };
    let outcome: StoredOutcome = if same_text(row.outcome.as_str(), "failed") {
        match row.failure {
            Some(wire) => StoredOutcome::Failed(StoreError::from(wire)),
            None => {
                return Err(StoreError::Corrupt);
            },
        }
    } else if same_text(row.outcome.as_str(), "succeeded") {
        let effect: StoredEffect = match effect {
            Some(name) => if same_text(name, "applied") {
                StoredEffect::Applied
            } else if same_text(name, "unchanged") {
                StoredEffect::Unchanged
            } else {
                return Err(StoreError::Corrupt);
            },
            None => {
                return Err(StoreError::Corrupt);
            },
        };
        StoredOutcome::Succeeded { effect, kind: stored_result_kind(action) }
    } else {
        return Err(StoreError::Corrupt);
    };
    if !well_formed {
        return Err(StoreError::Corrupt);
    }
    Ok(
        StoredRequest {
            request_id,
            caller,
            action,
            digest,
            outcome,
        },
    )
}

} // verus!
