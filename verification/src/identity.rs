//! What is digested: for identities that follow from a request, and for contents that are known by
//! their digest.

use vstd::prelude::*;
use vstd::string::*;
use vstd::utf8::*;

use crate::approval::{decision_of, ApprovalStatus};
use crate::error::StoreError;
use crate::ids::{ApprovalId, OperationId, RequestId};
use crate::mailbox::RelayedDecision;
use crate::text::text_mark;

verus! {

/// One byte of an identity, counted from the most significant.
pub open spec fn id_byte(id: u128, index: int) -> u8 {
    ((id >> ((120 - 8 * index) as u128)) & 0xff) as u8
}

/// The sixteen bytes of an identity, the most significant first.
pub open spec fn id_bytes(id: u128) -> Seq<u8> {
    Seq::new(16, |index: int| id_byte(id, index))
}

/// Adds the bytes of an identity.
pub(crate) fn push_id(bytes: &mut Vec<u8>, id: u128)
    ensures
        final(bytes)@ == old(bytes)@ + id_bytes(id),
{
    let ghost before = bytes@;
    let mut index: u128 = 0;
    while index < 16
        invariant
            index <= 16,
            bytes@ =~= before + id_bytes(id).take(index as int),
        decreases 16 - index,
    {
        let shift: u128 = 120 - 8 * index;
        let low: u128 = (id >> shift) & 0xff;
        assert(low <= 0xff) by (bit_vector)
            requires
                low == (id >> shift) & 0xff,
                shift < 128,
        ;
        bytes.push(low as u8);
        assert(id_bytes(id).take(index + 1) =~= id_bytes(id).take(index as int).push(low as u8));
        index = index + 1;
    }
    assert(id_bytes(id).take(16) =~= id_bytes(id));
}

/// Adds the bytes of a text.
fn push_text(bytes: &mut Vec<u8>, text: &str)
    ensures
        final(bytes)@ == old(bytes)@ + text.spec_bytes(),
{
    let mut added: Vec<u8> = text.as_bytes_vec();
    bytes.append(&mut added);
}

/// What is digested: bytes, under a name that tells their use.
pub struct IdentitySource {
    pub capability: &'static str,
    pub bytes: Vec<u8>,
}

/// What identifies a message that follows from a request: its domain, and the request.
pub open spec fn message_source(request_id: RequestId, domain: Seq<u8>) -> Seq<u8> {
    domain + id_bytes(request_id.0)
}

/// The bytes under which a message that follows from a request is known.
pub fn message_identity(request_id: RequestId, domain: Vec<u8>) -> (source: IdentitySource)
    ensures
        source.capability@ == "message.identity.v1"@,
        source.bytes@ == message_source(request_id, domain@),
{
    let mut bytes: Vec<u8> = domain;
    push_id(&mut bytes, request_id.0);
    IdentitySource { capability: "message.identity.v1", bytes }
}

/// The domain of the message that tells the outcome of an operation.
pub open spec fn outcome_bytes() -> Seq<u8> {
    "navigator.operation.outcome.v1".spec_bytes()
}

/// The domain of the message that tells the outcome of an operation.
pub fn outcome_domain() -> (domain: Vec<u8>)
    ensures
        domain@ == outcome_bytes(),
{
    "navigator.operation.outcome.v1".as_bytes_vec()
}

/// The domain of the message that asks an operation to stop: one of its own for each.
pub open spec fn cancellation_bytes(operation_id: OperationId) -> Seq<u8> {
    "navigator.operation.cancel.v1".spec_bytes() + id_bytes(operation_id.0)
}

/// The domain of the message that asks an operation to stop.
pub fn cancellation_domain(operation_id: OperationId) -> (domain: Vec<u8>)
    ensures
        domain@ == cancellation_bytes(operation_id),
{
    let mut domain: Vec<u8> = "navigator.operation.cancel.v1".as_bytes_vec();
    push_id(&mut domain, operation_id.0);
    domain
}

/// What identifies an event: the request that it came of, and its type.
pub open spec fn event_source(request_id: RequestId, event_type: Seq<char>) -> Seq<u8> {
    id_bytes(request_id.0) + encode_utf8(event_type)
}

/// The bytes under which an event is known.
pub fn event_identity(request_id: RequestId, event_type: &str) -> (source: IdentitySource)
    ensures
        source.capability@ == "event.identity.v1"@,
        source.bytes@ == event_source(request_id, event_type@),
{
    let mut bytes: Vec<u8> = Vec::new();
    push_id(&mut bytes, request_id.0);
    push_text(&mut bytes, event_type);
    IdentitySource { capability: "event.identity.v1", bytes }
}

/// What identifies the message that tells a decision: the request for leave, and the decision.
pub open spec fn decision_source(approval_id: ApprovalId, decision: RelayedDecision) -> Seq<u8> {
    id_bytes(approval_id.0) + (match decision {
        RelayedDecision::Granted => "granted".spec_bytes(),
        RelayedDecision::Denied => "denied".spec_bytes(),
    })
}

/// The bytes under which the message that tells a decision is known; only grants and denials are
/// told.
pub fn decision_identity(approval_id: ApprovalId, status: ApprovalStatus) -> (result: Result<
    IdentitySource,
    StoreError,
>)
    ensures
        match (result, decision_of(status)) {
            (Ok(source), Some(decision)) => {
                &&& source.capability@ == "approval.decision.relay.v1"@
                &&& source.bytes@ == decision_source(approval_id, decision)
            },
            (Err(error), None) => error == StoreError::Invalid,
            _ => false,
        },
{
    let mut bytes: Vec<u8> = Vec::new();
    push_id(&mut bytes, approval_id.0);
    match status {
        ApprovalStatus::Granted => push_text(&mut bytes, "granted"),
        ApprovalStatus::Denied => push_text(&mut bytes, "denied"),
        _ => {
            return Err(StoreError::Invalid);
        },
    }
    Ok(IdentitySource { capability: "approval.decision.relay.v1", bytes })
}

/// What a content is that is known by its digest.
#[derive(Clone, Copy, PartialEq, Eq, Debug, Structural)]
pub enum DigestUse {
    /// The result that a tool invocation ended with.
    ToolResult,
    /// The failure that a tool invocation ended with.
    ToolFailure,
    /// The input of an operation, in the one form that its template gives it.
    OperationInput,
    /// The outcome of an operation, as it is made known.
    PublicOutcome,
    /// The summary of a request for leave.
    ApprovalSummary,
    /// The reason for settling an uncertain effect.
    ResolutionReason,
    /// Classifications that were made after a restart.
    RecoveryClassifications,
}

/// The name under which a content is digested.
pub open spec fn digest_use_text(content: DigestUse) -> Seq<char> {
    match content {
        DigestUse::ToolResult => "tool.result"@,
        DigestUse::ToolFailure => "tool.failure"@,
        DigestUse::OperationInput => "operation.input.v1"@,
        DigestUse::PublicOutcome => "operation.public-outcome.v1"@,
        DigestUse::ApprovalSummary => "approval.summary.v1"@,
        DigestUse::ResolutionReason => "effect.resolution.reason.v1"@,
        DigestUse::RecoveryClassifications => "recovery.classify"@,
    }
}

/// The bytes under which a content is known: those of the content itself, under the name of its
/// use.
pub fn content_source(content: DigestUse, bytes: Vec<u8>) -> (source: IdentitySource)
    ensures
        source.capability@ == digest_use_text(content),
        source.bytes@ == bytes@,
{
    let capability: &'static str = match content {
        DigestUse::ToolResult => "tool.result",
        DigestUse::ToolFailure => "tool.failure",
        DigestUse::OperationInput => "operation.input.v1",
        DigestUse::PublicOutcome => "operation.public-outcome.v1",
        DigestUse::ApprovalSummary => "approval.summary.v1",
        DigestUse::ResolutionReason => "effect.resolution.reason.v1",
        DigestUse::RecoveryClassifications => "recovery.classify",
    };
    IdentitySource { capability, bytes }
}

/// Contents of different uses are never digested under the same name, and none under the name of
/// an identity: a result is not taken for a failure with the same bytes.
pub proof fn digest_uses_are_distinct(left: DigestUse, right: DigestUse)
    ensures
        digest_use_text(left) == digest_use_text(right) ==> left == right,
        digest_use_text(left) != "message.identity.v1"@,
        digest_use_text(left) != "event.identity.v1"@,
        digest_use_text(left) != "approval.decision.relay.v1"@,
{
    reveal_strlit("tool.result");
    reveal_strlit("tool.failure");
    reveal_strlit("operation.input.v1");
    reveal_strlit("operation.public-outcome.v1");
    reveal_strlit("approval.summary.v1");
    reveal_strlit("effect.resolution.reason.v1");
    reveal_strlit("recovery.classify");
    reveal_strlit("message.identity.v1");
    reveal_strlit("event.identity.v1");
    reveal_strlit("approval.decision.relay.v1");
    let mark = text_mark(digest_use_text(left));
    assert(digest_use_text(left) == digest_use_text(right) ==> mark == text_mark(
        digest_use_text(right),
    ));
    assert(mark != text_mark("message.identity.v1"@));
    assert(mark != text_mark("event.identity.v1"@));
    assert(mark != text_mark("approval.decision.relay.v1"@));
}

/// Different identities have different bytes.
pub proof fn id_bytes_are_distinct(left: u128, right: u128)
    requires
        id_bytes(left) == id_bytes(right),
    ensures
        left == right,
{
    assert forall|index: int| 0 <= index < 16 implies #[trigger] id_byte(left, index) == id_byte(
        right,
        index,
    ) by {
        assert(id_bytes(left)[index] == id_byte(left, index));
        assert(id_bytes(right)[index] == id_byte(right, index));
    }
    assert(id_byte(left, 0) == id_byte(right, 0));
    assert(id_byte(left, 1) == id_byte(right, 1));
    assert(id_byte(left, 2) == id_byte(right, 2));
    assert(id_byte(left, 3) == id_byte(right, 3));
    assert(id_byte(left, 4) == id_byte(right, 4));
    assert(id_byte(left, 5) == id_byte(right, 5));
    assert(id_byte(left, 6) == id_byte(right, 6));
    assert(id_byte(left, 7) == id_byte(right, 7));
    assert(id_byte(left, 8) == id_byte(right, 8));
    assert(id_byte(left, 9) == id_byte(right, 9));
    assert(id_byte(left, 10) == id_byte(right, 10));
    assert(id_byte(left, 11) == id_byte(right, 11));
    assert(id_byte(left, 12) == id_byte(right, 12));
    assert(id_byte(left, 13) == id_byte(right, 13));
    assert(id_byte(left, 14) == id_byte(right, 14));
    assert(id_byte(left, 15) == id_byte(right, 15));
    assert(left == right) by (bit_vector)
        requires
            ((left >> 120u128) & 0xff) as u8 == ((right >> 120u128) & 0xff) as u8,
            ((left >> 112u128) & 0xff) as u8 == ((right >> 112u128) & 0xff) as u8,
            ((left >> 104u128) & 0xff) as u8 == ((right >> 104u128) & 0xff) as u8,
            ((left >> 96u128) & 0xff) as u8 == ((right >> 96u128) & 0xff) as u8,
            ((left >> 88u128) & 0xff) as u8 == ((right >> 88u128) & 0xff) as u8,
            ((left >> 80u128) & 0xff) as u8 == ((right >> 80u128) & 0xff) as u8,
            ((left >> 72u128) & 0xff) as u8 == ((right >> 72u128) & 0xff) as u8,
            ((left >> 64u128) & 0xff) as u8 == ((right >> 64u128) & 0xff) as u8,
            ((left >> 56u128) & 0xff) as u8 == ((right >> 56u128) & 0xff) as u8,
            ((left >> 48u128) & 0xff) as u8 == ((right >> 48u128) & 0xff) as u8,
            ((left >> 40u128) & 0xff) as u8 == ((right >> 40u128) & 0xff) as u8,
            ((left >> 32u128) & 0xff) as u8 == ((right >> 32u128) & 0xff) as u8,
            ((left >> 24u128) & 0xff) as u8 == ((right >> 24u128) & 0xff) as u8,
            ((left >> 16u128) & 0xff) as u8 == ((right >> 16u128) & 0xff) as u8,
            ((left >> 8u128) & 0xff) as u8 == ((right >> 8u128) & 0xff) as u8,
            ((left >> 0u128) & 0xff) as u8 == ((right >> 0u128) & 0xff) as u8,
    ;
}

/// Messages that follow from different requests, or under different domains, are never known by
/// the same bytes.
pub proof fn message_sources_are_distinct(
    left: RequestId,
    left_domain: Seq<u8>,
    right: RequestId,
    right_domain: Seq<u8>,
)
    requires
        message_source(left, left_domain) == message_source(right, right_domain),
    ensures
        left == right,
        left_domain == right_domain,
{
    let one = message_source(left, left_domain);
    let other = message_source(right, right_domain);
    assert(one.len() == left_domain.len() + 16);
    assert(other.len() == right_domain.len() + 16);
    assert(one.take(left_domain.len() as int) =~= left_domain);
    assert(other.take(right_domain.len() as int) =~= right_domain);
    assert(one.skip(left_domain.len() as int) =~= id_bytes(left.0));
    assert(other.skip(right_domain.len() as int) =~= id_bytes(right.0));
    id_bytes_are_distinct(left.0, right.0);
}

/// The messages that ask operations to stop have a domain for each operation, and none of them
/// is the domain of an outcome.
pub proof fn message_domains_are_distinct(left: OperationId, right: OperationId)
    ensures
        cancellation_bytes(left) != outcome_bytes(),
        cancellation_bytes(left) == cancellation_bytes(right) ==> left == right,
{
    let prefix = "navigator.operation.cancel.v1".spec_bytes();
    reveal_strlit("navigator.operation.cancel.v1");
    reveal_strlit("navigator.operation.outcome.v1");
    is_ascii_chars_encode_utf8("navigator.operation.cancel.v1"@);
    is_ascii_chars_encode_utf8("navigator.operation.outcome.v1"@);
    if cancellation_bytes(left) == cancellation_bytes(right) {
        assert(cancellation_bytes(left).skip(prefix.len() as int) =~= id_bytes(left.0));
        assert(cancellation_bytes(right).skip(prefix.len() as int) =~= id_bytes(right.0));
        id_bytes_are_distinct(left.0, right.0);
    }
}

/// Events of different requests, or of different types, are never known by the same bytes.
pub proof fn event_sources_are_distinct(
    left: RequestId,
    left_type: Seq<char>,
    right: RequestId,
    right_type: Seq<char>,
)
    requires
        event_source(left, left_type) == event_source(right, right_type),
    ensures
        left == right,
        left_type == right_type,
{
    let one = event_source(left, left_type);
    let other = event_source(right, right_type);
    assert(one.take(16) =~= id_bytes(left.0));
    assert(other.take(16) =~= id_bytes(right.0));
    id_bytes_are_distinct(left.0, right.0);
    assert(one.skip(16) =~= encode_utf8(left_type));
    assert(other.skip(16) =~= encode_utf8(right_type));
    encode_utf8_decode_utf8(left_type);
    encode_utf8_decode_utf8(right_type);
}

/// A grant and a denial of the same request, and decisions on different requests, are never told
/// under the same bytes.
pub proof fn decision_sources_are_distinct(
    left: ApprovalId,
    left_decision: RelayedDecision,
    right: ApprovalId,
    right_decision: RelayedDecision,
)
    requires
        decision_source(left, left_decision) == decision_source(right, right_decision),
    ensures
        left == right,
        left_decision == right_decision,
{
    let one = decision_source(left, left_decision);
    let other = decision_source(right, right_decision);
    assert(one.take(16) =~= id_bytes(left.0));
    assert(other.take(16) =~= id_bytes(right.0));
    id_bytes_are_distinct(left.0, right.0);
    reveal_strlit("granted");
    reveal_strlit("denied");
    is_ascii_chars_encode_utf8("granted"@);
    is_ascii_chars_encode_utf8("denied"@);
    assert(one.len() == 16 + (if left_decision is Granted {
        7int
    } else {
        6int
    }));
    assert(other.len() == 16 + (if right_decision is Granted {
        7int
    } else {
        6int
    }));
}

} // verus!
