//! What is digested for the identities that follow from a request.

use crate::approval::ApprovalStatus;
use crate::error::StoreError;
use crate::identity::{
    cancellation_domain, content_source, decision_identity, event_identity, message_identity,
    outcome_domain, DigestUse, IdentitySource,
};
use crate::ids::{ApprovalId, OperationId, RequestId};
use vstd::prelude::*;
use vstd::string::StringSliceAdditionalSpecFns;
use vstd::utf8::encode_utf8;

verus! {

/// The sixteen bytes stand from this place on, the most significant first.
pub open spec fn stands_from(bytes: Seq<u8>, start: int, id: u128) -> bool {
    forall|i: int|
        0 <= i < 16 ==> #[trigger] bytes[start + i] == ((id >> ((120 - 8 * i) as u128))
            & 0xff) as u8
}

/// The identity of a message comes from the domain and the request, that of an event from the
/// request and its type.
pub proof fn identities_come_from_the_request(
    request_id: RequestId,
    domain: Vec<u8>,
    event_type: &str,
    message: IdentitySource,
    event: IdentitySource,
)
    requires
        call_ensures(message_identity, (request_id, domain), message),
        call_ensures(event_identity, (request_id, event_type), event),
    ensures
        message.capability@ == "message.identity.v1"@,
        message.bytes@.len() == domain@.len() + 16,
        message.bytes@.take(domain@.len() as int) == domain@,
        stands_from(message.bytes@, domain@.len() as int, request_id.0),
        event.capability@ == "event.identity.v1"@,
        event.bytes@.len() == 16 + encode_utf8(event_type@).len(),
        stands_from(event.bytes@, 0, request_id.0),
        event.bytes@.skip(16) == encode_utf8(event_type@),
{
    assert(message.bytes@.take(domain@.len() as int) =~= domain@);
    assert(event.bytes@.skip(16) =~= encode_utf8(event_type@));
}

/// Outcomes and cancellations have domains of their own, and each cancelled operation its own.
pub proof fn domains_are_their_own(operation_id: OperationId, outcome: Vec<u8>, cancel: Vec<u8>)
    requires
        call_ensures(outcome_domain, (), outcome),
        call_ensures(cancellation_domain, (operation_id,), cancel),
    ensures
        outcome@ == "navigator.operation.outcome.v1".spec_bytes(),
        ({
            let words = "navigator.operation.cancel.v1".spec_bytes();
            &&& cancel@.len() == words.len() + 16
            &&& cancel@.take(words.len() as int) == words
            &&& stands_from(cancel@, words.len() as int, operation_id.0)
        }),
{
    let words = "navigator.operation.cancel.v1".spec_bytes();
    assert(cancel@.take(words.len() as int) =~= words);
}

/// Only a decision has an identity: one for a grant and another for a denial.
pub proof fn decisions_have_identities(
    approval_id: ApprovalId,
    status: ApprovalStatus,
    result: Result<IdentitySource, StoreError>,
)
    requires
        call_ensures(decision_identity, (approval_id, status), result),
    ensures
        result is Ok <==> status is Granted || status is Denied,
        result matches Ok(source) ==> {
            &&& source.capability@ == "approval.decision.relay.v1"@
            &&& stands_from(source.bytes@, 0, approval_id.0)
            &&& status is Granted ==> source.bytes@.skip(16) == "granted".spec_bytes()
            &&& status is Denied ==> source.bytes@.skip(16) == "denied".spec_bytes()
        },
        result matches Err(error) ==> error == StoreError::Invalid,
{
    if result is Ok {
        let bytes = result->Ok_0.bytes@;
        if status is Granted {
            assert(bytes.skip(16) =~= "granted".spec_bytes());
        } else {
            assert(bytes.skip(16) =~= "denied".spec_bytes());
        }
    }
}

/// Contents are digested as they are, each under the name of its use.
pub proof fn contents_are_digested_as_they_are(
    content: DigestUse,
    bytes: Vec<u8>,
    source: IdentitySource,
)
    requires
        call_ensures(content_source, (content, bytes), source),
    ensures
        source.bytes@ == bytes@,
        content is ToolResult ==> source.capability@ == "tool.result"@,
        content is ToolFailure ==> source.capability@ == "tool.failure"@,
        content is OperationInput ==> source.capability@ == "operation.input.v1"@,
        content is PublicOutcome ==> source.capability@ == "operation.public-outcome.v1"@,
        content is ApprovalSummary ==> source.capability@ == "approval.summary.v1"@,
        content is ResolutionReason ==> source.capability@ == "effect.resolution.reason.v1"@,
        content is RecoveryClassifications ==> source.capability@ == "recovery.classify"@,
{
}

} // verus!
