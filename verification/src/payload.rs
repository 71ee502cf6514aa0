//! The documents that events carry.

use crate::approval::{
    approval_effect_phase, approval_event_members, approval_event_text,
    approval_event_types_are_distinct, approval_status_name, status_text, use_phase_text,
    ApprovalAction, ApprovalEffectPhase, ApprovalEventMembers, ApprovalRecord, ApprovalStatus,
};
use crate::effect::{resolution_name, resolution_text, EffectEntry, UncertaintyResolution};
use crate::error::StoreError;
use crate::ids::{
    ApprovalId, Digest, GrantId, MessageId, OperationId, ParticipantId, RequestId, Revision,
    SessionId,
};
use crate::mailbox::{
    delivery_event, message_event_names, resumption_event, DeliveryState, MessageSnapshot,
};
use crate::operation::{
    event_types_end_in_the_state, operation_state_name, outcome_text, state_event, state_text,
    terminal_outcome_name, OperationSnapshot, OperationState, ParticipantSnapshot,
    TerminalOutcome,
};
use crate::projection::event::{
    document, event_target, failing, json_field, json_is_document, terminal_state,
    transition_allowed, Field, FieldView, TargetView,
};
use crate::projection::fold::{doc_at, doc_of, event_step, FoldView, ProjectionEvent};
use crate::projection::ProjectionView;
use crate::session::{SessionSnapshot, SessionStatus};
use crate::text::{format_uuid, text_mark, uuid_text, uuid_value};
use crate::tool::{ToolInvocationSnapshot, ToolPhase};
use vstd::prelude::*;

verus! {

/// A member of an event document.
#[derive(Clone, Copy, PartialEq, Eq, Debug, Structural)]
pub enum Member {
    SchemaVersion,
    SessionId,
    Status,
    Revision,
    CreatedAt,
    UpdatedAt,
    OperationId,
    ParticipantId,
    State,
    InputMessageId,
    WaitingOnMessageId,
    TerminalOutcome,
    TerminalPublicDigest,
    MessageId,
    Source,
    Destination,
    MailboxSequence,
    Priority,
    InReplyTo,
    AttemptCount,
    ParentParticipantId,
    TemplateId,
    Depth,
    Lifecycle,
    InvocationId,
    RequestId,
    RegistrationId,
    ToolName,
    ToolVersion,
    Phase,
    ConnectionGeneration,
    TerminalDigest,
    Schema,
    Classifications,
    ApprovalId,
    GrantId,
    EffectId,
    SubjectId,
    Capability,
    ResourceHash,
    RequesterId,
    CoordinatorId,
    SourceMessageId,
    SummaryDigest,
    RequestRevision,
    GrantRevision,
    EffectRevision,
    MaxUses,
    UsedCount,
    ExpiresAt,
    RevokedAt,
    DecidedAt,
    FinishedAt,
    Participants,
    ActiveWork,
    Deliveries,
    Resources,
    EffectRequestId,
    EffectSemanticDigest,
    Resolution,
    Reason,
    ReasonDigest,
    ProofKind,
    ProofDigest,
    AssertionDigest,
    DeliveryState,
}

/// The name of a member.
pub open spec fn member_text(member: Member) -> Seq<char> {
    match member {
        Member::SchemaVersion => "schema_version"@,
        Member::SessionId => "session_id"@,
        Member::Status => "status"@,
        Member::Revision => "revision"@,
        Member::CreatedAt => "created_at"@,
        Member::UpdatedAt => "updated_at"@,
        Member::OperationId => "operation_id"@,
        Member::ParticipantId => "participant_id"@,
        Member::State => "state"@,
        Member::InputMessageId => "input_message_id"@,
        Member::WaitingOnMessageId => "waiting_on_message_id"@,
        Member::TerminalOutcome => "terminal_outcome"@,
        Member::TerminalPublicDigest => "terminal_public_digest"@,
        Member::MessageId => "message_id"@,
        Member::Source => "source"@,
        Member::Destination => "destination"@,
        Member::MailboxSequence => "mailbox_sequence"@,
        Member::Priority => "priority"@,
        Member::InReplyTo => "in_reply_to"@,
        Member::AttemptCount => "attempt_count"@,
        Member::ParentParticipantId => "parent_participant_id"@,
        Member::TemplateId => "template_id"@,
        Member::Depth => "depth"@,
        Member::Lifecycle => "lifecycle"@,
        Member::InvocationId => "invocation_id"@,
        Member::RequestId => "request_id"@,
        Member::RegistrationId => "registration_id"@,
        Member::ToolName => "tool_name"@,
        Member::ToolVersion => "tool_version"@,
        Member::Phase => "phase"@,
        Member::ConnectionGeneration => "connection_generation"@,
        Member::TerminalDigest => "terminal_digest"@,
        Member::Schema => "schema"@,
        Member::Classifications => "classifications"@,
        Member::ApprovalId => "approval_id"@,
        Member::GrantId => "grant_id"@,
        Member::EffectId => "effect_id"@,
        Member::SubjectId => "subject_id"@,
        Member::Capability => "capability"@,
        Member::ResourceHash => "resource_hash"@,
        Member::RequesterId => "requester_id"@,
        Member::CoordinatorId => "coordinator_id"@,
        Member::SourceMessageId => "source_message_id"@,
        Member::SummaryDigest => "summary_digest"@,
        Member::RequestRevision => "request_revision"@,
        Member::GrantRevision => "grant_revision"@,
        Member::EffectRevision => "effect_revision"@,
        Member::MaxUses => "max_uses"@,
        Member::UsedCount => "used_count"@,
        Member::ExpiresAt => "expires_at"@,
        Member::RevokedAt => "revoked_at"@,
        Member::DecidedAt => "decided_at"@,
        Member::FinishedAt => "finished_at"@,
        Member::Participants => "participants"@,
        Member::ActiveWork => "active_work"@,
        Member::Deliveries => "deliveries"@,
        Member::Resources => "resources"@,
        Member::EffectRequestId => "effect_request_id"@,
        Member::EffectSemanticDigest => "effect_semantic_digest"@,
        Member::Resolution => "resolution"@,
        Member::Reason => "reason"@,
        Member::ReasonDigest => "reason_digest"@,
        Member::ProofKind => "proof_kind"@,
        Member::ProofDigest => "proof_digest"@,
        Member::AssertionDigest => "assertion_digest"@,
        Member::DeliveryState => "delivery_state"@,
    }
}

/// The name of a member.
pub fn member_name(member: Member) -> (name: &'static str)
    ensures
        name@ == member_text(member),
{
    match member {
        Member::SchemaVersion => "schema_version",
        Member::SessionId => "session_id",
        Member::Status => "status",
        Member::Revision => "revision",
        Member::CreatedAt => "created_at",
        Member::UpdatedAt => "updated_at",
        Member::OperationId => "operation_id",
        Member::ParticipantId => "participant_id",
        Member::State => "state",
        Member::InputMessageId => "input_message_id",
        Member::WaitingOnMessageId => "waiting_on_message_id",
        Member::TerminalOutcome => "terminal_outcome",
        Member::TerminalPublicDigest => "terminal_public_digest",
        Member::MessageId => "message_id",
        Member::Source => "source",
        Member::Destination => "destination",
        Member::MailboxSequence => "mailbox_sequence",
        Member::Priority => "priority",
        Member::InReplyTo => "in_reply_to",
        Member::AttemptCount => "attempt_count",
        Member::ParentParticipantId => "parent_participant_id",
        Member::TemplateId => "template_id",
        Member::Depth => "depth",
        Member::Lifecycle => "lifecycle",
        Member::InvocationId => "invocation_id",
        Member::RequestId => "request_id",
        Member::RegistrationId => "registration_id",
        Member::ToolName => "tool_name",
        Member::ToolVersion => "tool_version",
        Member::Phase => "phase",
        Member::ConnectionGeneration => "connection_generation",
        Member::TerminalDigest => "terminal_digest",
        Member::Schema => "schema",
        Member::Classifications => "classifications",
        Member::ApprovalId => "approval_id",
        Member::GrantId => "grant_id",
        Member::EffectId => "effect_id",
        Member::SubjectId => "subject_id",
        Member::Capability => "capability",
        Member::ResourceHash => "resource_hash",
        Member::RequesterId => "requester_id",
        Member::CoordinatorId => "coordinator_id",
        Member::SourceMessageId => "source_message_id",
        Member::SummaryDigest => "summary_digest",
        Member::RequestRevision => "request_revision",
        Member::GrantRevision => "grant_revision",
        Member::EffectRevision => "effect_revision",
        Member::MaxUses => "max_uses",
        Member::UsedCount => "used_count",
        Member::ExpiresAt => "expires_at",
        Member::RevokedAt => "revoked_at",
        Member::DecidedAt => "decided_at",
        Member::FinishedAt => "finished_at",
        Member::Participants => "participants",
        Member::ActiveWork => "active_work",
        Member::Deliveries => "deliveries",
        Member::Resources => "resources",
        Member::EffectRequestId => "effect_request_id",
        Member::EffectSemanticDigest => "effect_semantic_digest",
        Member::Resolution => "resolution",
        Member::Reason => "reason",
        Member::ReasonDigest => "reason_digest",
        Member::ProofKind => "proof_kind",
        Member::ProofDigest => "proof_digest",
        Member::AssertionDigest => "assertion_digest",
        Member::DeliveryState => "delivery_state",
    }
}

/// Members have names of their own.
pub proof fn member_names_are_distinct(left: Member, right: Member)
    requires
        member_text(left) == member_text(right),
    ensures
        left == right,
{
    reveal_strlit("schema_version");
    reveal_strlit("session_id");
    reveal_strlit("status");
    reveal_strlit("revision");
    reveal_strlit("created_at");
    reveal_strlit("updated_at");
    reveal_strlit("operation_id");
    reveal_strlit("participant_id");
    reveal_strlit("state");
    reveal_strlit("input_message_id");
    reveal_strlit("waiting_on_message_id");
    reveal_strlit("terminal_outcome");
    reveal_strlit("terminal_public_digest");
    reveal_strlit("message_id");
    reveal_strlit("source");
    reveal_strlit("destination");
    reveal_strlit("mailbox_sequence");
    reveal_strlit("priority");
    reveal_strlit("in_reply_to");
    reveal_strlit("attempt_count");
    reveal_strlit("parent_participant_id");
    reveal_strlit("template_id");
    reveal_strlit("depth");
    reveal_strlit("lifecycle");
    reveal_strlit("invocation_id");
    reveal_strlit("request_id");
    reveal_strlit("registration_id");
    reveal_strlit("tool_name");
    reveal_strlit("tool_version");
    reveal_strlit("phase");
    reveal_strlit("connection_generation");
    reveal_strlit("terminal_digest");
    reveal_strlit("schema");
    reveal_strlit("classifications");
    reveal_strlit("approval_id");
    reveal_strlit("grant_id");
    reveal_strlit("effect_id");
    reveal_strlit("subject_id");
    reveal_strlit("capability");
    reveal_strlit("resource_hash");
    reveal_strlit("requester_id");
    reveal_strlit("coordinator_id");
    reveal_strlit("source_message_id");
    reveal_strlit("summary_digest");
    reveal_strlit("request_revision");
    reveal_strlit("grant_revision");
    reveal_strlit("effect_revision");
    reveal_strlit("max_uses");
    reveal_strlit("used_count");
    reveal_strlit("expires_at");
    reveal_strlit("revoked_at");
    reveal_strlit("decided_at");
    reveal_strlit("finished_at");
    reveal_strlit("participants");
    reveal_strlit("active_work");
    reveal_strlit("deliveries");
    reveal_strlit("resources");
    reveal_strlit("effect_request_id");
    reveal_strlit("effect_semantic_digest");
    reveal_strlit("resolution");
    reveal_strlit("reason");
    reveal_strlit("reason_digest");
    reveal_strlit("proof_kind");
    reveal_strlit("proof_digest");
    reveal_strlit("assertion_digest");
    reveal_strlit("delivery_state");
    assert(text_mark(member_text(left)) == text_mark(member_text(right)));
}

/// A value in an event document. One whose form is not the store's own comes encoded.
pub enum JsonValue {
    Null,
    Text(String),
    Number(u64),
    Octets(Digest),
    Encoded(String),
}

/// A value in an event document as a mathematical value.
pub ghost enum ValueView {
    Null,
    Text(Seq<char>),
    Number(u64),
    Octets(Digest),
    Encoded(Seq<char>),
}

impl View for JsonValue {
    type V = ValueView;

    open spec fn view(&self) -> ValueView {
        match self {
            JsonValue::Null => ValueView::Null,
            JsonValue::Text(text) => ValueView::Text(text@),
            JsonValue::Number(number) => ValueView::Number(*number),
            JsonValue::Octets(digest) => ValueView::Octets(*digest),
            JsonValue::Encoded(text) => ValueView::Encoded(text@),
        }
    }
}

/// The bytes of the JSON object with the given members: what `serde_json::to_vec` gives for it;
/// nothing where `serde_json::from_str` does not read an encoded value.
pub uninterp spec fn json_object(members: Seq<(Seq<char>, ValueView)>) -> Option<Seq<u8>>;

/// A member that is not there, or is null.
pub open spec fn nothing() -> FieldView {
    FieldView { text: None, number: None, present: false, array: false }
}

/// What reading a member gives that was written with a value that is not encoded.
pub open spec fn field_of(value: ValueView) -> FieldView {
    match value {
        ValueView::Text(text) => FieldView {
            text: Some(text),
            number: None,
            present: true,
            array: false,
        },
        ValueView::Number(number) => FieldView {
            text: None,
            number: Some(number),
            present: true,
            array: false,
        },
        ValueView::Octets(_) => FieldView { text: None, number: None, present: true, array: true },
        _ => nothing(),
    }
}

/// Whether none of the values is encoded.
pub open spec fn plain(members: Seq<(Seq<char>, ValueView)>) -> bool {
    forall|i: int| 0 <= i < members.len() ==> !((#[trigger] members[i]).1 is Encoded)
}

/// Whether reading the bytes gives back the members that were written: each value that is not
/// encoded, and nothing under any other name.
pub open spec fn reads_back(members: Seq<(Seq<char>, ValueView)>, data: Seq<u8>) -> bool {
    &&& forall|i: int|
        0 <= i < members.len() && !((#[trigger] members[i]).1 is Encoded) ==> json_field(
            data,
            members[i].0,
        ) == field_of(members[i].1)
    &&& forall|name: Seq<char>|
        (forall|i: int| 0 <= i < members.len() ==> (#[trigger] members[i]).0 != name)
            ==> #[trigger] json_field(data, name) == nothing()
}

/// Names and values as they are written.
pub open spec fn written_members(names: Seq<&'static str>, values: Seq<JsonValue>) -> Seq<
    (Seq<char>, ValueView),
> {
    Seq::new(names.len(), |i: int| (names[i]@, values[i]@))
}

/// The bytes of a result.
pub open spec fn opt_bytes(data: Option<Vec<u8>>) -> Option<Seq<u8>> {
    match data {
        Some(data) => Some(data@),
        None => None,
    }
}

/// `serde_json::Map::insert` of each member, with `serde_json::from_str` for an encoded value,
/// and `serde_json::to_vec` of the object. The bytes depend on the members alone. Without encoded
/// values there always are bytes, and `serde_json::from_slice` reads them. Where it reads the
/// bytes, it gives back what was written. Nothing is said of reading an encoded value back, nor
/// that an object with one is read at all: it may be nested too deeply for that.
#[verifier::external_body]
fn write_object(names: &Vec<&'static str>, values: &Vec<JsonValue>) -> (data: Option<Vec<u8>>)
    requires
        names.len() == values.len(),
        forall|i: int, j: int| 0 <= i < j < names.len() ==> names[i]@ != names[j]@,
    ensures
        opt_bytes(data) == json_object(written_members(names@, values@)),
        plain(written_members(names@, values@)) ==> (data matches Some(data) && json_is_document(
            data@,
        )),
        data matches Some(data) ==> json_is_document(data@) ==> reads_back(
            written_members(names@, values@),
            data@,
        ),
{
    let mut object = serde_json::Map::new();
    for (name, value) in names.iter().zip(values) {
        let value = match value {
            JsonValue::Null => serde_json::Value::Null,
            JsonValue::Text(text) => serde_json::Value::from(text.as_str()),
            JsonValue::Number(number) => serde_json::Value::from(*number),
            JsonValue::Octets(digest) => serde_json::Value::from(
                [digest.high.to_be_bytes(), digest.low.to_be_bytes()].concat(),
            ),
            JsonValue::Encoded(text) => serde_json::from_str(text).ok()?,
        };
        object.insert(name.to_string(), value);
    }
    serde_json::to_vec(&object).ok()
}

/// Members with their values.
pub open spec fn members_view(members: Seq<(Member, JsonValue)>) -> Seq<(Member, ValueView)> {
    members.map_values(|member: (Member, JsonValue)| (member.0, member.1@))
}

/// Members by their names.
pub open spec fn named(members: Seq<(Member, ValueView)>) -> Seq<(Seq<char>, ValueView)> {
    members.map_values(|member: (Member, ValueView)| (member_text(member.0), member.1))
}

/// Whether members have a member.
pub open spec fn names_member(members: Seq<(Member, ValueView)>, member: Member) -> bool {
    exists|i: int| 0 <= i < members.len() && (#[trigger] members[i]).0 == member
}

/// Whether reading the bytes gives back members that were written.
pub open spec fn gives_back(members: Seq<(Member, ValueView)>, data: Seq<u8>) -> bool {
    &&& forall|i: int|
        0 <= i < members.len() && !((#[trigger] members[i]).1 is Encoded) ==> json_field(
            data,
            member_text(members[i].0),
        ) == field_of(members[i].1)
    &&& forall|member: Member|
        !names_member(members, member) ==> json_field(data, #[trigger] member_text(member))
            == nothing()
}

/// Whether a result holds the document with the given members: it always does where none is
/// encoded, and an encoded value that is not JSON is corruption. A document that can be read
/// gives back what was written.
pub open spec fn written(
    result: Result<Vec<u8>, StoreError>,
    members: Seq<(Member, ValueView)>,
) -> bool {
    match result {
        Ok(data) => {
            &&& json_object(named(members)) == Some(data@)
            &&& plain(named(members)) ==> json_is_document(data@)
            &&& json_is_document(data@) ==> gives_back(members, data@)
        },
        Err(error) => {
            &&& error == StoreError::Corrupt
            &&& json_object(named(members)) is None
            &&& !plain(named(members))
        },
    }
}

/// Whether no member is there twice.
pub open spec fn different(members: Seq<(Member, ValueView)>) -> bool {
    forall|i: int, j: int|
        0 <= i < j < members.len() ==> (#[trigger] members[i]).0 != (#[trigger] members[j]).0
}

fn write_members(members: Vec<(Member, JsonValue)>) -> (result: Result<Vec<u8>, StoreError>)
    requires
        different(members_view(members@)),
    ensures
        written(result, members_view(members@)),
{
    let ghost view = members_view(members@);
    let mut names: Vec<&'static str> = Vec::new();
    let mut values: Vec<JsonValue> = Vec::new();
    let mut index: usize = 0;
    while index < members.len()
        invariant
            index <= members.len(),
            names.len() == index,
            values.len() == index,
            forall|i: int| 0 <= i < index ==> names[i]@ == member_text(members[i].0),
            forall|i: int| 0 <= i < index ==> (#[trigger] values[i])@ == members[i].1@,
        decreases members.len() - index,
    {
        names.push(member_name(members[index].0));
        values.push(copy(&members[index].1));
        index = index + 1;
    }
    proof {
        assert forall|i: int, j: int| 0 <= i < j < names.len() implies names[i]@ != names[j]@ by {
            assert(view[i].0 == members[i].0 && view[j].0 == members[j].0);
            if member_text(members[i].0) == member_text(members[j].0) {
                member_names_are_distinct(members[i].0, members[j].0);
            }
        }
        assert(written_members(names@, values@) =~= named(view)) by {
            assert forall|i: int| 0 <= i < names.len() implies written_members(names@, values@)[i]
                == named(view)[i] by {
                assert(values[i]@ == members[i].1@);
            }
        }
    }
    match write_object(&names, &values) {
        Some(data) => {
            proof {
                if json_is_document(data@) {
                    lemma_gives_back(view, data@);
                }
            }
            Ok(data)
        },
        None => Err(StoreError::Corrupt),
    }
}

proof fn lemma_gives_back(members: Seq<(Member, ValueView)>, data: Seq<u8>)
    requires
        reads_back(named(members), data),
    ensures
        gives_back(members, data),
{
    assert forall|i: int|
        0 <= i < members.len() && !((#[trigger] members[i]).1 is Encoded) implies json_field(
        data,
        member_text(members[i].0),
    ) == field_of(members[i].1) by {
        assert(named(members)[i] == (member_text(members[i].0), members[i].1));
    }
    assert forall|member: Member| !names_member(members, member) implies json_field(
        data,
        #[trigger] member_text(member),
    ) == nothing() by {
        assert forall|i: int| 0 <= i < named(members).len() implies (#[trigger] named(
            members,
        )[i]).0 != member_text(member) by {
            assert(members[i].0 != member);
            if member_text(members[i].0) == member_text(member) {
                member_names_are_distinct(members[i].0, member);
            }
        }
    }
}

proof fn lemma_unnamed(members: Seq<(Member, ValueView)>, member: Member, data: Seq<u8>)
    requires
        gives_back(members, data),
        forall|i: int| 0 <= i < members.len() ==> (#[trigger] members[i]).0 != member,
    ensures
        json_field(data, member_text(member)) == nothing(),
{
    assert(!names_member(members, member));
}

fn copy(value: &JsonValue) -> (copied: JsonValue)
    ensures
        copied@ == value@,
{
    match value {
        JsonValue::Null => JsonValue::Null,
        JsonValue::Text(text) => JsonValue::Text(text.clone()),
        JsonValue::Number(number) => JsonValue::Number(*number),
        JsonValue::Octets(digest) => JsonValue::Octets(*digest),
        JsonValue::Encoded(text) => JsonValue::Encoded(text.clone()),
    }
}

fn label(name: &'static str) -> (value: JsonValue)
    ensures
        value@ == ValueView::Text(name@),
{
    JsonValue::Text(name.to_owned())
}

fn plain_text(text: &String) -> (value: JsonValue)
    ensures
        value@ == ValueView::Text(text@),
{
    JsonValue::Text(text.clone())
}

fn encoded(text: &String) -> (value: JsonValue)
    ensures
        value@ == ValueView::Encoded(text@),
{
    JsonValue::Encoded(text.clone())
}

/// Whether the text of an identity is read back as that identity.
pub open spec fn readable(bits: u128) -> bool {
    uuid_text(bits).len() == 36 && uuid_value(uuid_text(bits)) == Some(bits)
}

fn id(bits: u128) -> (value: JsonValue)
    ensures
        value@ == ValueView::Text(uuid_text(bits)),
        readable(bits),
{
    JsonValue::Text(format_uuid(bits))
}

/// The identity of a message, where there is one.
pub open spec fn message_view(id: Option<MessageId>) -> ValueView {
    match id {
        Some(id) => ValueView::Text(uuid_text(id.0)),
        None => ValueView::Null,
    }
}

fn message_value(optional: Option<MessageId>) -> (value: JsonValue)
    ensures
        value@ == message_view(optional),
        optional matches Some(id) ==> readable(id.0),
{
    match optional {
        Some(known) => id(known.0),
        None => JsonValue::Null,
    }
}

/// The identity of an operation, where there is one.
pub open spec fn operation_view(id: Option<OperationId>) -> ValueView {
    match id {
        Some(id) => ValueView::Text(uuid_text(id.0)),
        None => ValueView::Null,
    }
}

fn operation_value(optional: Option<OperationId>) -> (value: JsonValue)
    ensures
        value@ == operation_view(optional),
        optional matches Some(id) ==> readable(id.0),
{
    match optional {
        Some(known) => id(known.0),
        None => JsonValue::Null,
    }
}

/// The identity of a participant, where there is one.
pub open spec fn participant_view(id: Option<ParticipantId>) -> ValueView {
    match id {
        Some(id) => ValueView::Text(uuid_text(id.0)),
        None => ValueView::Null,
    }
}

fn participant_value(optional: Option<ParticipantId>) -> (value: JsonValue)
    ensures
        value@ == participant_view(optional),
        optional matches Some(id) ==> readable(id.0),
{
    match optional {
        Some(known) => id(known.0),
        None => JsonValue::Null,
    }
}

/// The identity of a request for leave, where there is one.
pub open spec fn approval_view(id: Option<ApprovalId>) -> ValueView {
    match id {
        Some(id) => ValueView::Text(uuid_text(id.0)),
        None => ValueView::Null,
    }
}

fn approval_value(optional: Option<ApprovalId>) -> (value: JsonValue)
    ensures
        value@ == approval_view(optional),
        optional matches Some(id) ==> readable(id.0),
{
    match optional {
        Some(known) => id(known.0),
        None => JsonValue::Null,
    }
}

/// The identity of leave, where there is one.
pub open spec fn grant_view(id: Option<GrantId>) -> ValueView {
    match id {
        Some(id) => ValueView::Text(uuid_text(id.0)),
        None => ValueView::Null,
    }
}

fn grant_value(optional: Option<GrantId>) -> (value: JsonValue)
    ensures
        value@ == grant_view(optional),
        optional matches Some(id) ==> readable(id.0),
{
    match optional {
        Some(known) => id(known.0),
        None => JsonValue::Null,
    }
}

/// The identity of a request, where there is one.
pub open spec fn request_view(id: Option<RequestId>) -> ValueView {
    match id {
        Some(id) => ValueView::Text(uuid_text(id.0)),
        None => ValueView::Null,
    }
}

fn request_value(optional: Option<RequestId>) -> (value: JsonValue)
    ensures
        value@ == request_view(optional),
        optional matches Some(id) ==> readable(id.0),
{
    match optional {
        Some(known) => id(known.0),
        None => JsonValue::Null,
    }
}

/// How an operation ended, where it did.
pub open spec fn outcome_view(outcome: Option<TerminalOutcome>) -> ValueView {
    match outcome {
        Some(outcome) => ValueView::Text(outcome_text(outcome.kind)),
        None => ValueView::Null,
    }
}

fn outcome_value(outcome: Option<TerminalOutcome>) -> (value: JsonValue)
    ensures
        value@ == outcome_view(outcome),
{
    match outcome {
        Some(outcome) => label(terminal_outcome_name(outcome.kind)),
        None => JsonValue::Null,
    }
}

/// The digest under which the end of an operation is made known, where it ended.
pub open spec fn outcome_digest_view(outcome: Option<TerminalOutcome>) -> ValueView {
    match outcome {
        Some(outcome) => ValueView::Octets(outcome.public_digest),
        None => ValueView::Null,
    }
}

fn outcome_digest_value(outcome: Option<TerminalOutcome>) -> (value: JsonValue)
    ensures
        value@ == outcome_digest_view(outcome),
{
    match outcome {
        Some(outcome) => JsonValue::Octets(outcome.public_digest),
        None => JsonValue::Null,
    }
}

/// A number that may be missing.
pub open spec fn optional_number_view(number: Option<u64>) -> ValueView {
    match number {
        Some(number) => ValueView::Number(number),
        None => ValueView::Null,
    }
}

fn optional_number(number: Option<u64>) -> (value: JsonValue)
    ensures
        value@ == optional_number_view(number),
{
    match number {
        Some(number) => JsonValue::Number(number),
        None => JsonValue::Null,
    }
}

/// An encoded value that may be missing.
pub open spec fn optional_encoded_view(text: Option<String>) -> ValueView {
    match text {
        Some(text) => ValueView::Encoded(text@),
        None => ValueView::Null,
    }
}

fn optional_encoded(text: &Option<String>) -> (value: JsonValue)
    ensures
        value@ == optional_encoded_view(*text),
{
    match text {
        Some(text) => encoded(text),
        None => JsonValue::Null,
    }
}

/// When something was made and last changed, each encoded.
pub struct Times {
    pub created_at: String,
    pub updated_at: String,
}

proof fn lemma_operation_family(state: OperationState)
    ensures
        !"participant."@.is_prefix_of(state_event(state)),
        "operation."@.is_prefix_of(state_event(state)),
        state_event(state) != "participant.create_root"@,
        state_event(state) != "participant.create_child"@,
{
    event_types_end_in_the_state(state);
    reveal_strlit("operation.");
    reveal_strlit("participant.");
    reveal_strlit("participant.create_root");
    reveal_strlit("participant.create_child");
    let kind = state_event(state);
    assert(kind.subrange(0, 10) =~= "operation."@);
    assert(kind[0] == 'o');
    if "participant."@.is_prefix_of(kind) {
        assert("participant."@[0] == kind.subrange(0, 12)[0]);
    }
}

proof fn lemma_message_family(state: DeliveryState)
    ensures
        !"participant."@.is_prefix_of(delivery_event(state).0),
        !"operation."@.is_prefix_of(delivery_event(state).0),
        "message."@.is_prefix_of(delivery_event(state).0),
        delivery_event(state).0 != "participant.create_root"@,
        delivery_event(state).0 != "participant.create_child"@,
        crate::projection::event::message_state_matches(
            delivery_event(state).0,
            Some(delivery_event(state).1),
        ),
{
    reveal_strlit("message.");
    reveal_strlit("operation.");
    reveal_strlit("participant.");
    reveal_strlit("participant.create_root");
    reveal_strlit("participant.create_child");
    reveal_strlit("message.enqueued");
    reveal_strlit("message.retry_scheduled");
    reveal_strlit("retry_scheduled");
    reveal_strlit("message.leased");
    reveal_strlit("leased");
    reveal_strlit("message.acceptance_pending");
    reveal_strlit("acceptance_pending");
    reveal_strlit("message.acceptance_unknown");
    reveal_strlit("acceptance_unknown");
    reveal_strlit("message.accepted");
    reveal_strlit("accepted");
    reveal_strlit("message.uncertain");
    reveal_strlit("uncertain");
    reveal_strlit("message.dead_lettered");
    reveal_strlit("dead_lettered");
    let (kind, name) = delivery_event(state);
    assert(kind.subrange(0, 8) =~= "message."@);
    assert(kind[0] == 'm');
    if "participant."@.is_prefix_of(kind) {
        assert("participant."@[0] == kind.subrange(0, 12)[0]);
    }
    if "operation."@.is_prefix_of(kind) {
        assert("operation."@[0] == kind.subrange(0, 10)[0]);
    }
    if state != DeliveryState::Queued {
        assert(kind =~= "message."@ + name);
        assert(kind[8] != 'e');
    }
}

proof fn lemma_participant_family()
    ensures
        "participant."@.is_prefix_of("participant.created"@),
        "participant.created"@ != "participant.create_root"@,
        "participant.created"@ != "participant.create_child"@,
        !failing("participant.created"@),
        !terminal_state(Some("registered"@)),
{
    reveal_strlit("participant.");
    reveal_strlit("participant.created");
    reveal_strlit("participant.create_root");
    reveal_strlit("participant.create_child");
    reveal_strlit(".failed");
    reveal_strlit(".dead_lettered");
    reveal_strlit(".uncertain");
    reveal_strlit("registered");
    reveal_strlit("succeeded");
    reveal_strlit("failed");
    reveal_strlit("cancelled");
    reveal_strlit("consumed");
    reveal_strlit("denied");
    reveal_strlit("expired");
    reveal_strlit("revoked");
    reveal_strlit("accepted");
    reveal_strlit("dead_lettered");
    assert("registered"@.len() == 10);
    assert("succeeded"@.len() == 9 && "cancelled"@.len() == 9);
    assert("consumed"@.len() == 8 && "accepted"@.len() == 8);
    assert("expired"@.len() == 7 && "revoked"@.len() == 7);
    assert("failed"@.len() == 6 && "denied"@.len() == 6 && "dead_lettered"@.len() == 13);
    let kind = "participant.created"@;
    assert(kind.subrange(0, 12) =~= "participant."@);
    if ".failed"@.is_suffix_of(kind) {
        assert(".failed"@[0] == kind.subrange(12, 19)[0]);
    }
    if ".dead_lettered"@.is_suffix_of(kind) {
        assert(".dead_lettered"@[0] == kind.subrange(5, 19)[0]);
    }
    if ".uncertain"@.is_suffix_of(kind) {
        assert(".uncertain"@[0] == kind.subrange(9, 19)[0]);
    }
}

/// What an operation event changes in the read models: the item of the operation among the active
/// work, and a failure where it failed or became uncertain.
pub open spec fn operation_target(snapshot: OperationSnapshot) -> TargetView {
    TargetView {
        view: ProjectionView::ActiveWork,
        key: uuid_text(snapshot.operation_id.0),
        terminal: terminal_state(Some(state_text(snapshot.state))),
        failure_key: if failing(state_event(snapshot.state)) {
            Some(state_event(snapshot.state) + ":"@ + uuid_text(snapshot.operation_id.0))
        } else {
            None
        },
    }
}

/// The document of an operation event.
pub open spec fn operation_members(
    snapshot: OperationSnapshot,
    times: Times,
) -> Seq<(Member, ValueView)> {
    seq![
        (Member::SchemaVersion, ValueView::Number(1)),
        (Member::SessionId, ValueView::Text(uuid_text(snapshot.session_id.0))),
        (Member::OperationId, ValueView::Text(uuid_text(snapshot.operation_id.0))),
        (Member::ParticipantId, ValueView::Text(uuid_text(snapshot.participant_id.0))),
        (Member::State, ValueView::Text(state_text(snapshot.state))),
        (Member::InputMessageId, ValueView::Text(uuid_text(snapshot.input_message_id.0))),
        (Member::WaitingOnMessageId, message_view(snapshot.waiting_on_message_id)),
        (Member::TerminalOutcome, outcome_view(snapshot.terminal_outcome)),
        (Member::TerminalPublicDigest, outcome_digest_view(snapshot.terminal_outcome)),
        (Member::Revision, ValueView::Number(snapshot.revision.0)),
        (Member::CreatedAt, ValueView::Encoded(times.created_at@)),
        (Member::UpdatedAt, ValueView::Encoded(times.updated_at@)),
    ]
}

/// The document of an operation event, as bytes.
pub fn operation_event_payload(
    snapshot: OperationSnapshot,
    times: &Times,
) -> (result: Result<Vec<u8>, StoreError>)
    ensures
        written(result, operation_members(snapshot, *times)),
        result matches Ok(data) ==> json_is_document(data@) ==> event_target(
            snapshot.session_id,
            snapshot.revision.0,
            state_event(snapshot.state),
            Some(document(data@)),
        ) == Ok::<Option<TargetView>, StoreError>(Some(operation_target(snapshot))),
{
    let mut members: Vec<(Member, JsonValue)> = Vec::new();
    members.push((Member::SchemaVersion, JsonValue::Number(1)));
    members.push((Member::SessionId, id(snapshot.session_id.0)));
    members.push((Member::OperationId, id(snapshot.operation_id.0)));
    members.push((Member::ParticipantId, id(snapshot.participant_id.0)));
    members.push((Member::State, label(operation_state_name(snapshot.state))));
    members.push((Member::InputMessageId, id(snapshot.input_message_id.0)));
    members.push((Member::WaitingOnMessageId, message_value(snapshot.waiting_on_message_id)));
    members.push((Member::TerminalOutcome, outcome_value(snapshot.terminal_outcome)));
    members.push((Member::TerminalPublicDigest, outcome_digest_value(snapshot.terminal_outcome)));
    members.push((Member::Revision, JsonValue::Number(snapshot.revision.0)));
    members.push((Member::CreatedAt, encoded(&times.created_at)));
    members.push((Member::UpdatedAt, encoded(&times.updated_at)));
    let ghost expected = operation_members(snapshot, *times);
    assert(members_view(members@) =~= expected);
    let result: Result<Vec<u8>, StoreError> = write_members(members);
    proof {
        if result is Ok && json_is_document(result->Ok_0@) {
            let data = result->Ok_0;
            assert(expected[0].0 == Member::SchemaVersion);
            assert(expected[1].0 == Member::SessionId);
            assert(expected[2].0 == Member::OperationId);
            assert(expected[3].0 == Member::ParticipantId);
            assert(expected[4].0 == Member::State);
            assert(expected[9].0 == Member::Revision);
            event_types_end_in_the_state(snapshot.state);
            lemma_operation_family(snapshot.state);
        }
    }
    result
}

/// Whether an event stands at its place in the journal and changes a target.
pub open spec fn changes(
    session_id: SessionId,
    events: Seq<ProjectionEvent>,
    index: int,
    revision: u64,
    kind: Seq<char>,
    target: TargetView,
) -> bool {
    &&& 0 <= index < usize::MAX
    &&& events[index].position == index + 1
    &&& events[index].schema_version == 1
    &&& events[index].revision == revision
    &&& events[index].event_type@ == kind
    &&& event_target(session_id, revision, kind, doc_at(events, index)) == Ok::<
        Option<TargetView>,
        StoreError,
    >(Some(target))
}

/// Whether the last event of an item left it open, one revision before, in a state after which
/// an event type is accepted.
pub open spec fn awaits(
    seen: FoldView,
    events: Seq<ProjectionEvent>,
    target: TargetView,
    revision: u64,
    kind: Seq<char>,
) -> bool {
    let name = (target.view, target.key);
    &&& seen.histories.contains_key(name)
    &&& !seen.histories[name].terminal
    &&& seen.histories[name].revision + 1 == revision
    &&& transition_allowed(
        target.view,
        events[seen.histories[name].event as int].event_type@,
        kind,
    )
}

/// The read models take up an event of an operation whose type is that of its state: the first
/// one, and each that follows along the accepted transitions, but for those that also tell a
/// failure. An event that tells that it goes on after feedback has another type, and does not
/// apply.
pub proof fn operations_are_followed(
    seen: FoldView,
    events: Seq<ProjectionEvent>,
    index: int,
    snapshot: OperationSnapshot,
)
    requires
        changes(
            snapshot.session_id,
            events,
            index,
            snapshot.revision.0,
            state_event(snapshot.state),
            operation_target(snapshot),
        ),
        !failing(state_event(snapshot.state)),
        awaits(
            seen,
            events,
            operation_target(snapshot),
            snapshot.revision.0,
            state_event(snapshot.state),
        ) || (snapshot.revision.0 == 1 && snapshot.state == OperationState::Queued
            && !seen.histories.contains_key(
            (ProjectionView::ActiveWork, uuid_text(snapshot.operation_id.0)),
        )),
    ensures
        event_step(snapshot.session_id, seen, events, index) matches Some(after) && (
        terminal_state(Some(state_text(snapshot.state))) <==> !after.rows.contains_key(
            (ProjectionView::ActiveWork, uuid_text(snapshot.operation_id.0)),
        )),
{
}

/// The read models take up every event of a message in its turn: the first one, and each that
/// follows along the accepted transitions, but for those that also tell a failure.
pub proof fn deliveries_are_followed(
    seen: FoldView,
    events: Seq<ProjectionEvent>,
    index: int,
    snapshot: MessageSnapshot,
)
    requires
        changes(
            snapshot.session_id,
            events,
            index,
            snapshot.revision.0,
            delivery_event(snapshot.state).0,
            message_target(snapshot),
        ),
        !failing(delivery_event(snapshot.state).0),
        awaits(
            seen,
            events,
            message_target(snapshot),
            snapshot.revision.0,
            delivery_event(snapshot.state).0,
        ) || (snapshot.revision.0 == 1 && snapshot.state == DeliveryState::Queued
            && !seen.histories.contains_key(
            (ProjectionView::Delivery, uuid_text(snapshot.message_id.0)),
        )),
    ensures
        event_step(snapshot.session_id, seen, events, index) matches Some(after)
            && after.rows.contains_key(
            (ProjectionView::Delivery, uuid_text(snapshot.message_id.0)),
        ),
{
}

/// An event that tells a failure is taken up at the first revision of its item only: at any
/// other, where that failure was not told before, the history does not apply.
pub proof fn later_failures_do_not_apply(
    session_id: SessionId,
    seen: FoldView,
    events: Seq<ProjectionEvent>,
    index: int,
    revision: u64,
    kind: Seq<char>,
    target: TargetView,
)
    requires
        changes(session_id, events, index, revision, kind, target),
        target.failure_key matches Some(failure) && !seen.histories.contains_key(
            (ProjectionView::Failure, failure),
        ),
        revision != 1,
    ensures
        event_step(session_id, seen, events, index) is None,
{
}

/// An event that tells that an operation goes on after feedback is not taken up, whatever was seen
/// before: its type does not end in the state that its document tells, so the history does not
/// apply.
pub proof fn resumptions_do_not_apply(
    session_id: SessionId,
    seen: FoldView,
    events: Seq<ProjectionEvent>,
    index: int,
    snapshot: OperationSnapshot,
    times: Times,
)
    requires
        0 <= index < events.len(),
        events[index].event_type@ == resumption_event(),
        gives_back(operation_members(snapshot, times), events[index].data@),
    ensures
        event_step(session_id, seen, events, index) is None,
{
    let kind = resumption_event();
    let told = state_text(snapshot.state);
    let expected = operation_members(snapshot, times);
    assert(expected[4].0 == Member::State);
    assert(doc_of(events, index)[Field::State].text == Some(told));
    reveal_strlit("operation.resumed");
    reveal_strlit("operation.");
    reveal_strlit("participant.");
    reveal_strlit("participant.create_root");
    reveal_strlit("participant.create_child");
    reveal_strlit("resumed");
    assert(kind.subrange(0, 10) =~= "operation."@);
    assert(kind.skip(10) =~= "resumed"@);
    if "participant."@.is_prefix_of(kind) {
        assert("participant."@[0] == kind.subrange(0, 12)[0]);
    }
    if kind == "operation."@ + told {
        assert(("operation."@ + told).skip(10) =~= told);
        reveal_strlit("queued");
        reveal_strlit("starting");
        reveal_strlit("running");
        reveal_strlit("waiting");
        reveal_strlit("cancelling");
        reveal_strlit("succeeded");
        reveal_strlit("failed");
        reveal_strlit("cancelled");
        reveal_strlit("blocked");
        reveal_strlit("uncertain");
        assert(text_mark(told) == text_mark("resumed"@));
    }
}

/// What a message event changes in the read models: the item of the message among the
/// deliveries, and a failure where it was given up or became uncertain.
pub open spec fn message_target(snapshot: MessageSnapshot) -> TargetView {
    let kind = delivery_event(snapshot.state).0;
    TargetView {
        view: ProjectionView::Delivery,
        key: uuid_text(snapshot.message_id.0),
        terminal: terminal_state(Some(delivery_event(snapshot.state).1)),
        failure_key: if failing(kind) {
            Some(kind + ":"@ + uuid_text(snapshot.message_id.0))
        } else {
            None
        },
    }
}

/// The document of a message event.
pub open spec fn message_members(
    snapshot: MessageSnapshot,
    priority: Seq<char>,
    times: Times,
) -> Seq<(Member, ValueView)> {
    seq![
        (Member::SchemaVersion, ValueView::Number(1)),
        (Member::SessionId, ValueView::Text(uuid_text(snapshot.session_id.0))),
        (Member::MessageId, ValueView::Text(uuid_text(snapshot.message_id.0))),
        (Member::Source, ValueView::Text(uuid_text(snapshot.source.0))),
        (Member::Destination, ValueView::Text(uuid_text(snapshot.destination.0))),
        (Member::MailboxSequence, ValueView::Number(snapshot.mailbox_sequence)),
        (Member::Priority, ValueView::Encoded(priority)),
        (Member::OperationId, operation_view(snapshot.correlation.operation_id)),
        (Member::InReplyTo, message_view(snapshot.correlation.in_reply_to)),
        (Member::State, ValueView::Text(delivery_event(snapshot.state).1)),
        (Member::AttemptCount, ValueView::Number(snapshot.attempt_count as u64)),
        (Member::Revision, ValueView::Number(snapshot.revision.0)),
        (Member::CreatedAt, ValueView::Encoded(times.created_at@)),
        (Member::UpdatedAt, ValueView::Encoded(times.updated_at@)),
    ]
}

/// The document of a message event, as bytes.
pub fn message_event_payload(
    snapshot: MessageSnapshot,
    priority: &String,
    times: &Times,
) -> (result: Result<Vec<u8>, StoreError>)
    ensures
        written(result, message_members(snapshot, priority@, *times)),
        result matches Ok(data) ==> json_is_document(data@) ==> event_target(
            snapshot.session_id,
            snapshot.revision.0,
            delivery_event(snapshot.state).0,
            Some(document(data@)),
        ) == Ok::<Option<TargetView>, StoreError>(Some(message_target(snapshot))),
{
    let mut members: Vec<(Member, JsonValue)> = Vec::new();
    members.push((Member::SchemaVersion, JsonValue::Number(1)));
    members.push((Member::SessionId, id(snapshot.session_id.0)));
    members.push((Member::MessageId, id(snapshot.message_id.0)));
    members.push((Member::Source, id(snapshot.source.0)));
    members.push((Member::Destination, id(snapshot.destination.0)));
    members.push((Member::MailboxSequence, JsonValue::Number(snapshot.mailbox_sequence)));
    members.push((Member::Priority, encoded(priority)));
    members.push((Member::OperationId, operation_value(snapshot.correlation.operation_id)));
    members.push((Member::InReplyTo, message_value(snapshot.correlation.in_reply_to)));
    members.push((Member::State, label(message_event_names(snapshot.state).1)));
    members.push((Member::AttemptCount, JsonValue::Number(snapshot.attempt_count as u64)));
    members.push((Member::Revision, JsonValue::Number(snapshot.revision.0)));
    members.push((Member::CreatedAt, encoded(&times.created_at)));
    members.push((Member::UpdatedAt, encoded(&times.updated_at)));
    let ghost expected = message_members(snapshot, priority@, *times);
    assert(members_view(members@) =~= expected);
    let result: Result<Vec<u8>, StoreError> = write_members(members);
    proof {
        if result is Ok && json_is_document(result->Ok_0@) {
            let data = result->Ok_0;
            assert(expected[0].0 == Member::SchemaVersion);
            assert(expected[1].0 == Member::SessionId);
            assert(expected[2].0 == Member::MessageId);
            assert(expected[3].0 == Member::Source);
            assert(expected[4].0 == Member::Destination);
            assert(expected[9].0 == Member::State);
            assert(expected[11].0 == Member::Revision);
            lemma_message_family(snapshot.state);
        }
    }
    result
}

/// The document of the event that tells a new participant.
pub open spec fn participant_members(
    snapshot: ParticipantSnapshot,
) -> Seq<(Member, ValueView)> {
    seq![
        (Member::SchemaVersion, ValueView::Number(1)),
        (Member::SessionId, ValueView::Text(uuid_text(snapshot.session_id.0))),
        (Member::ParticipantId, ValueView::Text(uuid_text(snapshot.participant_id.0))),
        (Member::ParentParticipantId, participant_view(snapshot.parent_participant_id)),
        (Member::TemplateId, ValueView::Text(uuid_text(snapshot.template_id.0))),
        (Member::Depth, ValueView::Number(snapshot.depth as u64)),
        (Member::Revision, ValueView::Number(snapshot.revision.0)),
        (Member::Lifecycle, ValueView::Text("registered"@)),
    ]
}

/// The document of the event that tells a new participant, as bytes.
pub fn participant_event_payload(
    snapshot: ParticipantSnapshot,
) -> (result: Result<Vec<u8>, StoreError>)
    ensures
        written(result, participant_members(snapshot)),
        result matches Ok(data) && json_is_document(data@) && event_target(
            snapshot.session_id,
            snapshot.revision.0,
            "participant.created"@,
            Some(document(data@)),
        ) == Ok::<Option<TargetView>, StoreError>(
            Some(
                TargetView {
                    view: ProjectionView::SessionTree,
                    key: uuid_text(snapshot.participant_id.0),
                    terminal: false,
                    failure_key: None,
                },
            ),
        ),
{
    let mut members: Vec<(Member, JsonValue)> = Vec::new();
    members.push((Member::SchemaVersion, JsonValue::Number(1)));
    members.push((Member::SessionId, id(snapshot.session_id.0)));
    members.push((Member::ParticipantId, id(snapshot.participant_id.0)));
    members.push((Member::ParentParticipantId, participant_value(snapshot.parent_participant_id)));
    members.push((Member::TemplateId, id(snapshot.template_id.0)));
    members.push((Member::Depth, JsonValue::Number(snapshot.depth as u64)));
    members.push((Member::Revision, JsonValue::Number(snapshot.revision.0)));
    members.push((Member::Lifecycle, label("registered")));
    let ghost expected = participant_members(snapshot);
    assert(members_view(members@) =~= expected);
    let result: Result<Vec<u8>, StoreError> = write_members(members);
    proof {
        if result is Ok && json_is_document(result->Ok_0@) {
            let data = result->Ok_0;
            assert(expected[0].0 == Member::SchemaVersion);
            assert(expected[1].0 == Member::SessionId);
            assert(expected[2].0 == Member::ParticipantId);
            assert(expected[4].0 == Member::TemplateId);
            assert(expected[5].0 == Member::Depth);
            assert(expected[6].0 == Member::Revision);
            assert(expected[7].0 == Member::Lifecycle);
            lemma_unnamed(expected, Member::State, data@);
            lemma_unnamed(expected, Member::Status, data@);
            lemma_unnamed(expected, Member::Phase, data@);
            lemma_unnamed(expected, Member::DeliveryState, data@);
            lemma_participant_family();
        }
    }
    result
}

/// The document of the event that tells a participant that another one made. It does
/// not name the session, so the read models do not take it.
pub open spec fn spawned_members(
    snapshot: ParticipantSnapshot,
) -> Seq<(Member, ValueView)> {
    seq![
        (Member::SchemaVersion, ValueView::Number(1)),
        (Member::ParticipantId, ValueView::Text(uuid_text(snapshot.participant_id.0))),
        (Member::ParentParticipantId, participant_view(snapshot.parent_participant_id)),
        (Member::TemplateId, ValueView::Text(uuid_text(snapshot.template_id.0))),
        (Member::Depth, ValueView::Number(snapshot.depth as u64)),
        (Member::Revision, ValueView::Number(snapshot.revision.0)),
        (Member::Lifecycle, ValueView::Text("registered"@)),
    ]
}

/// The document of the event that tells a participant that another one made, as bytes.
pub fn spawned_participant_payload(
    snapshot: ParticipantSnapshot,
) -> (result: Result<Vec<u8>, StoreError>)
    ensures
        written(result, spawned_members(snapshot)),
        result matches Ok(data) && json_is_document(data@) && event_target(
            snapshot.session_id,
            snapshot.revision.0,
            "participant.created"@,
            Some(document(data@)),
        ) == Err::<Option<TargetView>, StoreError>(StoreError::Corrupt),
{
    let mut members: Vec<(Member, JsonValue)> = Vec::new();
    members.push((Member::SchemaVersion, JsonValue::Number(1)));
    members.push((Member::ParticipantId, id(snapshot.participant_id.0)));
    members.push((Member::ParentParticipantId, participant_value(snapshot.parent_participant_id)));
    members.push((Member::TemplateId, id(snapshot.template_id.0)));
    members.push((Member::Depth, JsonValue::Number(snapshot.depth as u64)));
    members.push((Member::Revision, JsonValue::Number(snapshot.revision.0)));
    members.push((Member::Lifecycle, label("registered")));
    let ghost expected = spawned_members(snapshot);
    assert(members_view(members@) =~= expected);
    let result: Result<Vec<u8>, StoreError> = write_members(members);
    proof {
        if result is Ok && json_is_document(result->Ok_0@) {
            let data = result->Ok_0;
            lemma_unnamed(expected, Member::SessionId, data@);
            lemma_participant_family();
        }
    }
    result
}

/// The name of the status of a session in its events.
pub open spec fn session_status_text(status: SessionStatus) -> Seq<char> {
    match status {
        SessionStatus::Open => "open"@,
        SessionStatus::Closed => "closed"@,
    }
}

fn session_status_name(status: SessionStatus) -> (name: &'static str)
    ensures
        name@ == session_status_text(status),
{
    match status {
        SessionStatus::Open => "open",
        SessionStatus::Closed => "closed",
    }
}

/// The document of a session event.
pub open spec fn session_members(
    snapshot: SessionSnapshot,
    times: Times,
) -> Seq<(Member, ValueView)> {
    seq![
        (Member::SchemaVersion, ValueView::Number(1)),
        (Member::SessionId, ValueView::Text(uuid_text(snapshot.id.0))),
        (Member::Status, ValueView::Text(session_status_text(snapshot.status))),
        (Member::Revision, ValueView::Number(snapshot.revision.0)),
        (Member::CreatedAt, ValueView::Encoded(times.created_at@)),
        (Member::UpdatedAt, ValueView::Encoded(times.updated_at@)),
    ]
}

/// The document of a session event, as bytes.
pub fn session_event_payload(
    snapshot: &SessionSnapshot,
    times: &Times,
) -> (result: Result<Vec<u8>, StoreError>)
    ensures
        written(result, session_members(*snapshot, *times)),
{
    let mut members: Vec<(Member, JsonValue)> = Vec::new();
    members.push((Member::SchemaVersion, JsonValue::Number(1)));
    members.push((Member::SessionId, id(snapshot.id.0)));
    members.push((Member::Status, label(session_status_name(snapshot.status))));
    members.push((Member::Revision, JsonValue::Number(snapshot.revision.0)));
    members.push((Member::CreatedAt, encoded(&times.created_at)));
    members.push((Member::UpdatedAt, encoded(&times.updated_at)));
    assert(members_view(members@) =~= session_members(*snapshot, *times));
    write_members(members)
}

/// The name of the phase of an invocation in its events.
pub open spec fn tool_phase_text(phase: ToolPhase) -> Seq<char> {
    match phase {
        ToolPhase::Reserved => "reserved"@,
        ToolPhase::Started => "started"@,
        ToolPhase::Uncertain => "uncertain"@,
        ToolPhase::Completed => "completed"@,
        ToolPhase::Failed => "failed"@,
    }
}

fn tool_phase_name(phase: ToolPhase) -> (name: &'static str)
    ensures
        name@ == tool_phase_text(phase),
{
    match phase {
        ToolPhase::Reserved => "reserved",
        ToolPhase::Started => "started",
        ToolPhase::Uncertain => "uncertain",
        ToolPhase::Completed => "completed",
        ToolPhase::Failed => "failed",
    }
}

/// What the document of a tool event takes from outside the invocation: the name and the version
/// of the tool, and the encoded digest of how it ended, where it ended.
pub struct ToolTexts {
    pub name: String,
    pub version: String,
    pub terminal_digest: Option<String>,
}

/// The document of a tool event.
pub open spec fn tool_members(
    snapshot: ToolInvocationSnapshot,
    texts: ToolTexts,
) -> Seq<(Member, ValueView)> {
    seq![
        (Member::SchemaVersion, ValueView::Number(1)),
        (Member::InvocationId, ValueView::Text(uuid_text(snapshot.invocation.invocation_id.0))),
        (Member::RequestId, ValueView::Text(uuid_text(snapshot.invocation.request_id.0))),
        (Member::ParticipantId, ValueView::Text(uuid_text(snapshot.invocation.participant_id.0))),
        (Member::OperationId, ValueView::Text(uuid_text(snapshot.invocation.operation_id.0))),
        (Member::RegistrationId, ValueView::Text(uuid_text(snapshot.registration_id.0))),
        (Member::ToolName, ValueView::Text(texts.name@)),
        (Member::ToolVersion, ValueView::Text(texts.version@)),
        (Member::Phase, ValueView::Text(tool_phase_text(snapshot.phase))),
        (Member::Revision, ValueView::Number(snapshot.revision.0)),
        (
            Member::ConnectionGeneration,
            optional_number_view(snapshot.dispatch.connection_generation),
        ),
        (Member::TerminalDigest, optional_encoded_view(texts.terminal_digest)),
    ]
}

/// The document of a tool event, as bytes.
pub fn tool_invocation_event_payload(
    snapshot: ToolInvocationSnapshot,
    texts: &ToolTexts,
) -> (result: Result<Vec<u8>, StoreError>)
    ensures
        written(result, tool_members(snapshot, *texts)),
{
    let mut members: Vec<(Member, JsonValue)> = Vec::new();
    members.push((Member::SchemaVersion, JsonValue::Number(1)));
    members.push((Member::InvocationId, id(snapshot.invocation.invocation_id.0)));
    members.push((Member::RequestId, id(snapshot.invocation.request_id.0)));
    members.push((Member::ParticipantId, id(snapshot.invocation.participant_id.0)));
    members.push((Member::OperationId, id(snapshot.invocation.operation_id.0)));
    members.push((Member::RegistrationId, id(snapshot.registration_id.0)));
    members.push((Member::ToolName, plain_text(&texts.name)));
    members.push((Member::ToolVersion, plain_text(&texts.version)));
    members.push((Member::Phase, label(tool_phase_name(snapshot.phase))));
    members.push((Member::Revision, JsonValue::Number(snapshot.revision.0)));
    members.push(
        (
            Member::ConnectionGeneration,
            optional_number(snapshot.dispatch.connection_generation),
        ),
    );
    members.push((Member::TerminalDigest, optional_encoded(&texts.terminal_digest)));
    assert(members_view(members@) =~= tool_members(snapshot, *texts));
    write_members(members)
}

/// The document of an authority event.
pub open spec fn authority_members(
    participant_id: ParticipantId,
) -> Seq<(Member, ValueView)> {
    seq![
        (Member::Schema, ValueView::Number(1)),
        (Member::ParticipantId, ValueView::Text(uuid_text(participant_id.0))),
    ]
}

/// The document of an authority event, as bytes.
pub fn authority_event_payload(
    participant_id: ParticipantId,
) -> (result: Result<Vec<u8>, StoreError>)
    ensures
        written(result, authority_members(participant_id)),
{
    let mut members: Vec<(Member, JsonValue)> = Vec::new();
    members.push((Member::Schema, JsonValue::Number(1)));
    members.push((Member::ParticipantId, id(participant_id.0)));
    assert(members_view(members@) =~= authority_members(participant_id));
    write_members(members)
}

/// The document of a recovery event.
pub open spec fn recovery_members(
    session_id: SessionId,
    request_id: RequestId,
    revision: Revision,
    classifications: Seq<char>,
) -> Seq<(Member, ValueView)> {
    seq![
        (Member::SchemaVersion, ValueView::Number(1)),
        (Member::SessionId, ValueView::Text(uuid_text(session_id.0))),
        (Member::RequestId, ValueView::Text(uuid_text(request_id.0))),
        (Member::Revision, ValueView::Number(revision.0)),
        (Member::Classifications, ValueView::Encoded(classifications)),
    ]
}

/// The document of a recovery event, as bytes.
pub fn recovery_event_payload(
    session_id: SessionId,
    request_id: RequestId,
    revision: Revision,
    classifications: &String,
) -> (result: Result<Vec<u8>, StoreError>)
    ensures
        written(result, recovery_members(session_id, request_id, revision, classifications@)),
{
    let mut members: Vec<(Member, JsonValue)> = Vec::new();
    members.push((Member::SchemaVersion, JsonValue::Number(1)));
    members.push((Member::SessionId, id(session_id.0)));
    members.push((Member::RequestId, id(request_id.0)));
    members.push((Member::Revision, JsonValue::Number(revision.0)));
    members.push((Member::Classifications, encoded(classifications)));
    assert(members_view(members@) =~= recovery_members(
        session_id,
        request_id,
        revision,
        classifications@,
    ));
    write_members(members)
}

/// The document of the capacity row of a session.
pub open spec fn capacity_members(
    session_id: SessionId,
    participants: u64,
    active_work: u64,
    deliveries: u64,
    resources: Seq<char>,
) -> Seq<(Member, ValueView)> {
    seq![
        (Member::SchemaVersion, ValueView::Number(1)),
        (Member::SessionId, ValueView::Text(uuid_text(session_id.0))),
        (Member::Participants, ValueView::Number(participants)),
        (Member::ActiveWork, ValueView::Number(active_work)),
        (Member::Deliveries, ValueView::Number(deliveries)),
        (Member::Resources, ValueView::Encoded(resources)),
    ]
}

/// The document of the capacity row of a session, as bytes.
pub fn capacity_row_payload(
    session_id: SessionId,
    participants: u64,
    active_work: u64,
    deliveries: u64,
    resources: &String,
) -> (result: Result<Vec<u8>, StoreError>)
    ensures
        written(
            result,
            capacity_members(session_id, participants, active_work, deliveries, resources@),
        ),
{
    let mut members: Vec<(Member, JsonValue)> = Vec::new();
    members.push((Member::SchemaVersion, JsonValue::Number(1)));
    members.push((Member::SessionId, id(session_id.0)));
    members.push((Member::Participants, JsonValue::Number(participants)));
    members.push((Member::ActiveWork, JsonValue::Number(active_work)));
    members.push((Member::Deliveries, JsonValue::Number(deliveries)));
    members.push((Member::Resources, encoded(resources)));
    assert(members_view(members@) =~= capacity_members(
        session_id,
        participants,
        active_work,
        deliveries,
        resources@,
    ));
    write_members(members)
}

/// What the document of a resolution takes encoded from outside.
pub struct ResolutionTexts {
    pub effect_semantic_digest: String,
    pub reason_digest: String,
    pub proof_kind: Option<String>,
    pub proof_digest: Option<String>,
    pub assertion_digest: String,
}

/// The document of the event that tells how an uncertain effect was settled. The reason is
/// told by its digest alone.
pub open spec fn resolution_members(
    effect: EffectEntry,
    resolution: UncertaintyResolution,
    texts: ResolutionTexts,
) -> Seq<(Member, ValueView)> {
    seq![
        (Member::EffectRequestId, ValueView::Text(uuid_text(effect.request_id.0))),
        (Member::EffectSemanticDigest, ValueView::Encoded(texts.effect_semantic_digest@)),
        (Member::OperationId, ValueView::Text(uuid_text(effect.operation_id.0))),
        (Member::ParticipantId, ValueView::Text(uuid_text(effect.participant_id.0))),
        (Member::Resolution, ValueView::Text(resolution_text(resolution))),
        (Member::Reason, ValueView::Text("redacted"@)),
        (Member::ReasonDigest, ValueView::Encoded(texts.reason_digest@)),
        (Member::ProofKind, optional_encoded_view(texts.proof_kind)),
        (Member::ProofDigest, optional_encoded_view(texts.proof_digest)),
        (Member::AssertionDigest, ValueView::Encoded(texts.assertion_digest@)),
    ]
}

/// The document of the event that tells how an uncertain effect was settled. The reason is
/// told by its digest alone, as bytes.
pub fn resolution_event_payload(
    effect: EffectEntry,
    resolution: UncertaintyResolution,
    texts: &ResolutionTexts,
) -> (result: Result<Vec<u8>, StoreError>)
    ensures
        written(result, resolution_members(effect, resolution, *texts)),
{
    let mut members: Vec<(Member, JsonValue)> = Vec::new();
    members.push((Member::EffectRequestId, id(effect.request_id.0)));
    members.push((Member::EffectSemanticDigest, encoded(&texts.effect_semantic_digest)));
    members.push((Member::OperationId, id(effect.operation_id.0)));
    members.push((Member::ParticipantId, id(effect.participant_id.0)));
    members.push((Member::Resolution, label(resolution_name(resolution))));
    members.push((Member::Reason, label("redacted")));
    members.push((Member::ReasonDigest, encoded(&texts.reason_digest)));
    members.push((Member::ProofKind, optional_encoded(&texts.proof_kind)));
    members.push((Member::ProofDigest, optional_encoded(&texts.proof_digest)));
    members.push((Member::AssertionDigest, encoded(&texts.assertion_digest)));
    assert(members_view(members@) =~= resolution_members(effect, resolution, *texts));
    write_members(members)
}

/// A request for leave as it is stored.
#[derive(Clone, Copy, PartialEq, Eq, Debug, Structural)]
pub struct RequestState {
    pub status: ApprovalStatus,
    pub revision: u64,
}

/// What is stored around the subject of an event about approvals.
#[derive(Clone, Copy, PartialEq, Eq, Debug, Structural)]
pub struct ApprovalState {
    /// The request of the leave that was used, where that is there.
    pub approval_of_grant: Option<ApprovalId>,
    pub request: Option<RequestState>,
    pub grant_revision: Option<u64>,
}

/// What the document of an event about approvals takes encoded from outside.
pub struct ApprovalTexts {
    pub capability: String,
    pub resource_hash: String,
    pub summary_digest: Option<String>,
    pub expires_at: Option<String>,
    pub revoked_at: Option<String>,
    pub created_at: String,
    pub decided_at: Option<String>,
    pub finished_at: Option<String>,
}

/// The request that an event about approvals belongs to.
pub open spec fn approval_of(record: ApprovalRecord, state: ApprovalState) -> Option<ApprovalId> {
    match record {
        ApprovalRecord::Request(request) => Some(request.id),
        ApprovalRecord::Grant(grant) => Some(grant.request_id),
        ApprovalRecord::Effect(_) => state.approval_of_grant,
    }
}

/// The leave that an event about approvals tells of.
pub open spec fn leave_of(record: ApprovalRecord) -> Option<GrantId> {
    match record {
        ApprovalRecord::Request(request) => request.grant_id,
        ApprovalRecord::Grant(grant) => Some(grant.id),
        ApprovalRecord::Effect(effect) => Some(effect.grant_id),
    }
}

/// The use of leave that an event about approvals tells of.
pub open spec fn use_of(record: ApprovalRecord) -> Option<RequestId> {
    match record {
        ApprovalRecord::Effect(effect) => Some(effect.effect_id),
        _ => None,
    }
}

/// For whom leave is asked, given or used.
pub open spec fn who(record: ApprovalRecord) -> ParticipantId {
    match record {
        ApprovalRecord::Request(request) => request.requester_id,
        ApprovalRecord::Grant(grant) => grant.subject_id,
        ApprovalRecord::Effect(effect) => effect.subject_id,
    }
}

/// For which operation leave is asked, given or used.
pub open spec fn whose(record: ApprovalRecord) -> OperationId {
    match record {
        ApprovalRecord::Request(request) => request.operation_id,
        ApprovalRecord::Grant(grant) => grant.operation_id,
        ApprovalRecord::Effect(effect) => effect.operation_id,
    }
}

/// Who asks for leave.
pub open spec fn requester(record: ApprovalRecord) -> Option<ParticipantId> {
    match record {
        ApprovalRecord::Request(request) => Some(request.requester_id),
        _ => None,
    }
}

/// Who decides on a request.
pub open spec fn deciding(record: ApprovalRecord) -> Option<ParticipantId> {
    match record {
        ApprovalRecord::Request(request) => Some(request.coordinator_id),
        _ => None,
    }
}

/// The message that a request came of.
pub open spec fn cause(record: ApprovalRecord) -> Option<MessageId> {
    match record {
        ApprovalRecord::Request(request) => Some(request.source_message_id),
        _ => None,
    }
}

/// The status that an event tells: that of the stored request, or else of the one it is about.
pub open spec fn told_status(record: ApprovalRecord, state: ApprovalState) -> Option<
    ApprovalStatus,
> {
    match (state.request, record) {
        (Some(request), _) => Some(request.status),
        (None, ApprovalRecord::Request(request)) => Some(request.status),
        _ => None,
    }
}

/// The revision of a use.
pub open spec fn use_revision(record: ApprovalRecord) -> Option<u64> {
    match record {
        ApprovalRecord::Effect(effect) => Some(effect.revision.0),
        _ => None,
    }
}

/// The phase of a use.
pub open spec fn use_phase(record: ApprovalRecord) -> Option<ApprovalEffectPhase> {
    match record {
        ApprovalRecord::Effect(effect) => Some(effect.phase),
        _ => None,
    }
}

/// How often leave may be used, and was.
pub open spec fn uses(record: ApprovalRecord) -> (Option<u64>, Option<u64>) {
    match record {
        ApprovalRecord::Grant(grant) => (
            Some(grant.max_uses as u64),
            Some(grant.used_count as u64),
        ),
        _ => (None, None),
    }
}

/// The revision that an event tells.
pub open spec fn record_revision(record: ApprovalRecord) -> Revision {
    match record {
        ApprovalRecord::Request(request) => request.revision,
        ApprovalRecord::Grant(grant) => grant.revision,
        ApprovalRecord::Effect(effect) => effect.revision,
    }
}

/// A status, where there is one.
pub open spec fn status_view(status: Option<ApprovalStatus>) -> ValueView {
    match status {
        Some(status) => ValueView::Text(status_text(status)),
        None => ValueView::Null,
    }
}

fn status_value(status: Option<ApprovalStatus>) -> (value: JsonValue)
    ensures
        value@ == status_view(status),
{
    match status {
        Some(status) => label(approval_status_name(status)),
        None => JsonValue::Null,
    }
}

/// A phase, where there is one.
pub open spec fn phase_view(phase: Option<ApprovalEffectPhase>) -> ValueView {
    match phase {
        Some(phase) => ValueView::Text(use_phase_text(phase)),
        None => ValueView::Null,
    }
}

fn phase_value(phase: Option<ApprovalEffectPhase>) -> (value: JsonValue)
    ensures
        value@ == phase_view(phase),
{
    match phase {
        Some(phase) => label(approval_effect_phase(phase)),
        None => JsonValue::Null,
    }
}

/// Whether an action leaves the request or the use so.
pub open spec fn tells(
    action: ApprovalAction,
    status: Option<ApprovalStatus>,
    phase: Option<ApprovalEffectPhase>,
) -> bool {
    match action {
        ApprovalAction::Request => status == Some(ApprovalStatus::Pending),
        ApprovalAction::Approve => status == Some(ApprovalStatus::Granted),
        ApprovalAction::Deny => status == Some(ApprovalStatus::Denied),
        ApprovalAction::Expire => status == Some(ApprovalStatus::Expired),
        ApprovalAction::Revoke => status == Some(ApprovalStatus::Revoked),
        ApprovalAction::Consume => status == Some(ApprovalStatus::Granted) || status == Some(
            ApprovalStatus::Consumed,
        ),
        ApprovalAction::FinishEffect => phase matches Some(phase) && phase
            != ApprovalEffectPhase::Reserved,
    }
}

/// The state that the read models take from an event: its status, or else the phase of the use.
pub open spec fn told_text(record: ApprovalRecord, state: ApprovalState) -> Option<Seq<char>> {
    match (told_status(record, state), use_phase(record)) {
        (Some(status), _) => Some(status_text(status)),
        (None, Some(phase)) => Some(use_phase_text(phase)),
        (None, None) => None,
    }
}


proof fn lemma_approval_family(action: ApprovalAction)
    ensures
        ({
            let kind = approval_event_text(action);
            &&& !"participant."@.is_prefix_of(kind)
            &&& !"operation."@.is_prefix_of(kind)
            &&& !"message."@.is_prefix_of(kind)
            &&& "approval."@.is_prefix_of(kind)
            &&& kind != "participant.create_root"@
            &&& kind != "participant.create_child"@
            &&& !failing(kind)
            &&& action != ApprovalAction::Request ==> kind != "approval.requested"@
            &&& action != ApprovalAction::Approve ==> kind != "approval.granted"@
            &&& action != ApprovalAction::Deny ==> kind != "approval.denied"@
            &&& action != ApprovalAction::Expire ==> kind != "approval.expired"@
            &&& action != ApprovalAction::Revoke ==> kind != "approval.revoked"@
            &&& action != ApprovalAction::Consume ==> kind != "approval.consumed"@
        }),
{
    reveal_strlit("participant.");
    reveal_strlit("operation.");
    reveal_strlit("message.");
    reveal_strlit("approval.");
    reveal_strlit("participant.create_root");
    reveal_strlit("participant.create_child");
    reveal_strlit(".failed");
    reveal_strlit(".dead_lettered");
    reveal_strlit(".uncertain");
    reveal_strlit("approval.requested");
    reveal_strlit("approval.granted");
    reveal_strlit("approval.denied");
    reveal_strlit("approval.expired");
    reveal_strlit("approval.revoked");
    reveal_strlit("approval.consumed");
    reveal_strlit("approval.effect.finished");
    let kind = approval_event_text(action);
    let length = kind.len() as int;
    assert(kind.subrange(0, 9) =~= "approval."@);
    assert(kind[0] == 'a');
    if "participant."@.is_prefix_of(kind) {
        assert("participant."@[0] == kind.subrange(0, 12)[0]);
    }
    if "operation."@.is_prefix_of(kind) {
        assert("operation."@[0] == kind.subrange(0, 10)[0]);
    }
    if "message."@.is_prefix_of(kind) {
        assert("message."@[0] == kind.subrange(0, 8)[0]);
    }
    if ".failed"@.is_suffix_of(kind) {
        assert(".failed"@[0] == kind.subrange(length - 7, length)[0]);
        assert(".failed"@[1] == kind.subrange(length - 7, length)[1]);
    }
    if ".dead_lettered"@.is_suffix_of(kind) {
        assert(".dead_lettered"@[0] == kind.subrange(length - 14, length)[0]);
        assert(".dead_lettered"@[1] == kind.subrange(length - 14, length)[1]);
    }
    if ".uncertain"@.is_suffix_of(kind) {
        assert(".uncertain"@[9] == kind.subrange(length - 10, length)[9]);
    }
    assert forall|other: ApprovalAction| other != action implies #[trigger] approval_event_text(
        other,
    ) != kind by {
        if approval_event_text(other) == kind {
            approval_event_types_are_distinct(other, action);
        }
    }
    assert(approval_event_text(ApprovalAction::Request) == "approval.requested"@);
    assert(approval_event_text(ApprovalAction::Approve) == "approval.granted"@);
    assert(approval_event_text(ApprovalAction::Deny) == "approval.denied"@);
    assert(approval_event_text(ApprovalAction::Expire) == "approval.expired"@);
    assert(approval_event_text(ApprovalAction::Revoke) == "approval.revoked"@);
    assert(approval_event_text(ApprovalAction::Consume) == "approval.consumed"@);
}

/// The document of an event about approvals.
pub open spec fn approval_members(
    session_id: SessionId,
    record: ApprovalRecord,
    state: ApprovalState,
    texts: ApprovalTexts,
) -> Seq<(Member, ValueView)> {
    seq![
        (Member::SchemaVersion, ValueView::Number(1)),
        (Member::SessionId, ValueView::Text(uuid_text(session_id.0))),
        (Member::ApprovalId, approval_view(approval_of(record, state))),
        (Member::GrantId, grant_view(leave_of(record))),
        (Member::EffectId, request_view(use_of(record))),
        (Member::SubjectId, ValueView::Text(uuid_text(who(record).0))),
        (Member::OperationId, ValueView::Text(uuid_text(whose(record).0))),
        (Member::Capability, ValueView::Encoded(texts.capability@)),
        (Member::ResourceHash, ValueView::Encoded(texts.resource_hash@)),
        (Member::RequesterId, participant_view(requester(record))),
        (Member::CoordinatorId, participant_view(deciding(record))),
        (Member::SourceMessageId, message_view(cause(record))),
        (Member::SummaryDigest, optional_encoded_view(texts.summary_digest)),
        (Member::Status, status_view(told_status(record, state))),
        (
            Member::RequestRevision,
            optional_number_view(
                match state.request {
                    Some(request) => Some(request.revision),
                    None => None,
                },
            ),
        ),
        (Member::GrantRevision, optional_number_view(state.grant_revision)),
        (Member::EffectRevision, optional_number_view(use_revision(record))),
        (Member::Phase, phase_view(use_phase(record))),
        (Member::MaxUses, optional_number_view(uses(record).0)),
        (Member::UsedCount, optional_number_view(uses(record).1)),
        (Member::ExpiresAt, optional_encoded_view(texts.expires_at)),
        (Member::RevokedAt, optional_encoded_view(texts.revoked_at)),
        (Member::CreatedAt, ValueView::Encoded(texts.created_at@)),
        (Member::DecidedAt, optional_encoded_view(texts.decided_at)),
        (Member::FinishedAt, optional_encoded_view(texts.finished_at)),
        (Member::Revision, ValueView::Number(record_revision(record).0)),
    ]
}

proof fn lemma_approval_members_differ(
    session_id: SessionId,
    record: ApprovalRecord,
    state: ApprovalState,
    texts: ApprovalTexts,
)
    ensures
        different(approval_members(session_id, record, state, texts)),
{
}

/// What an event about approvals changes in the read models.
pub open spec fn approval_target(record: ApprovalRecord, state: ApprovalState) -> TargetView {
    TargetView {
        view: ProjectionView::Approval,
        key: uuid_text(approval_of(record, state)->Some_0.0),
        terminal: terminal_state(told_text(record, state)),
        failure_key: None,
    }
}

/// What is read from a document with the members of an event about approvals, as far as the
/// read models go by it.
spec fn reads_approval(
    doc: Map<Field, FieldView>,
    session_id: SessionId,
    record: ApprovalRecord,
    state: ApprovalState,
) -> bool {
    &&& doc[Field::SchemaVersion] == field_of(ValueView::Number(1))
    &&& doc[Field::SessionId] == field_of(ValueView::Text(uuid_text(session_id.0)))
    &&& doc[Field::ApprovalId] == field_of(approval_view(approval_of(record, state)))
    &&& doc[Field::Status] == field_of(status_view(told_status(record, state)))
    &&& doc[Field::Phase] == field_of(phase_view(use_phase(record)))
    &&& doc[Field::Revision] == field_of(ValueView::Number(record_revision(record).0))
    &&& doc[Field::State] == nothing()
    &&& doc[Field::DeliveryState] == nothing()
    &&& doc[Field::Lifecycle] == nothing()
}

/// No event about approvals tells a state of another kind.
proof fn lemma_approval_states(
    session_id: SessionId,
    record: ApprovalRecord,
    state: ApprovalState,
    texts: ApprovalTexts,
)
    ensures
        ({
            let members = approval_members(session_id, record, state, texts);
            &&& !names_member(members, Member::State)
            &&& !names_member(members, Member::DeliveryState)
            &&& !names_member(members, Member::Lifecycle)
        }),
{
}

proof fn lemma_reads_approval(
    session_id: SessionId,
    record: ApprovalRecord,
    state: ApprovalState,
    texts: ApprovalTexts,
    data: Seq<u8>,
)
    requires
        gives_back(approval_members(session_id, record, state, texts), data),
    ensures
        reads_approval(document(data), session_id, record, state),
{
    let expected = approval_members(session_id, record, state, texts);
    assert(expected[0] == (Member::SchemaVersion, ValueView::Number(1)));
    assert(expected[1].0 == Member::SessionId);
    assert(expected[2].0 == Member::ApprovalId);
    assert(expected[13].0 == Member::Status);
    assert(expected[17].0 == Member::Phase);
    assert(expected[25].0 == Member::Revision);
    lemma_approval_states(session_id, record, state, texts);
    assert(json_field(data, member_text(Member::State)) == nothing());
    assert(json_field(data, member_text(Member::DeliveryState)) == nothing());
    assert(json_field(data, member_text(Member::Lifecycle)) == nothing());
}

/// A document that reads as an event about approvals is taken up as that event.
proof fn lemma_approval_target(
    action: ApprovalAction,
    session_id: SessionId,
    record: ApprovalRecord,
    state: ApprovalState,
    doc: Map<Field, FieldView>,
)
    requires
        reads_approval(doc, session_id, record, state),
        approval_of(record, state) matches Some(approval) && readable(approval.0),
        tells(action, told_status(record, state), use_phase(record)),
    ensures
        event_target(
            session_id,
            record_revision(record).0,
            approval_event_text(action),
            Some(doc),
        ) == Ok::<Option<TargetView>, StoreError>(Some(approval_target(record, state))),
{
    lemma_approval_family(action);
}

/// What an event about approvals tells of what it is about: who asked, who decides and for which
/// message; the revision and the phase of a use; and how often leave may be used, and was.
struct ToldRecord {
    requester: Option<ParticipantId>,
    deciding: Option<ParticipantId>,
    cause: Option<MessageId>,
    use_revision: Option<u64>,
    use_phase: Option<ApprovalEffectPhase>,
    uses: (Option<u64>, Option<u64>),
    revision: Revision,
}

fn tell_record(record: ApprovalRecord) -> (told: ToldRecord)
    ensures
        told.requester == requester(record),
        told.deciding == deciding(record),
        told.cause == cause(record),
        told.use_revision == use_revision(record),
        told.use_phase == use_phase(record),
        told.uses == uses(record),
        told.revision == record_revision(record),
{
    let nothing_told = ToldRecord {
        requester: None,
        deciding: None,
        cause: None,
        use_revision: None,
        use_phase: None,
        uses: (None, None),
        revision: Revision(1),
    };
    match record {
        ApprovalRecord::Request(request) => ToldRecord {
            requester: Some(request.requester_id),
            deciding: Some(request.coordinator_id),
            cause: Some(request.source_message_id),
            revision: request.revision,
            ..nothing_told
        },
        ApprovalRecord::Grant(grant) => ToldRecord {
            uses: (Some(grant.max_uses as u64), Some(grant.used_count as u64)),
            revision: grant.revision,
            ..nothing_told
        },
        ApprovalRecord::Effect(effect) => ToldRecord {
            use_revision: Some(effect.revision.0),
            use_phase: Some(effect.phase),
            revision: effect.revision,
            ..nothing_told
        },
    }
}

fn tell_request(record: ApprovalRecord, state: ApprovalState) -> (told: (
    Option<ApprovalStatus>,
    Option<u64>,
))
    ensures
        told.0 == told_status(record, state),
        told.1 == (match state.request {
            Some(request) => Some(request.revision),
            None => None,
        }),
{
    match (state.request, record) {
        (Some(request), _) => (Some(request.status), Some(request.revision)),
        (None, ApprovalRecord::Request(request)) => (Some(request.status), None),
        _ => (None, None),
    }
}

fn list_approval(
    session_id: SessionId,
    record: ApprovalRecord,
    state: ApprovalState,
    texts: &ApprovalTexts,
) -> (members: Vec<(Member, JsonValue)>)
    ensures
        members_view(members@) == approval_members(session_id, record, state, *texts),
        approval_of(record, state) matches Some(approval) ==> readable(approval.0),
{
    let members_of: ApprovalEventMembers = approval_event_members(record, state.approval_of_grant);
    let told: ToldRecord = tell_record(record);
    let (status, request_revision): (Option<ApprovalStatus>, Option<u64>) = tell_request(
        record,
        state,
    );
    let mut members: Vec<(Member, JsonValue)> = Vec::new();
    members.push((Member::SchemaVersion, JsonValue::Number(1)));
    members.push((Member::SessionId, id(session_id.0)));
    members.push((Member::ApprovalId, approval_value(members_of.approval_id)));
    members.push((Member::GrantId, grant_value(members_of.grant_id)));
    members.push((Member::EffectId, request_value(members_of.effect_id)));
    members.push((Member::SubjectId, id(members_of.subject_id.0)));
    members.push((Member::OperationId, id(members_of.operation_id.0)));
    members.push((Member::Capability, encoded(&texts.capability)));
    members.push((Member::ResourceHash, encoded(&texts.resource_hash)));
    members.push((Member::RequesterId, participant_value(told.requester)));
    members.push((Member::CoordinatorId, participant_value(told.deciding)));
    members.push((Member::SourceMessageId, message_value(told.cause)));
    members.push((Member::SummaryDigest, optional_encoded(&texts.summary_digest)));
    members.push((Member::Status, status_value(status)));
    members.push((Member::RequestRevision, optional_number(request_revision)));
    members.push((Member::GrantRevision, optional_number(state.grant_revision)));
    members.push((Member::EffectRevision, optional_number(told.use_revision)));
    members.push((Member::Phase, phase_value(told.use_phase)));
    members.push((Member::MaxUses, optional_number(told.uses.0)));
    members.push((Member::UsedCount, optional_number(told.uses.1)));
    members.push((Member::ExpiresAt, optional_encoded(&texts.expires_at)));
    members.push((Member::RevokedAt, optional_encoded(&texts.revoked_at)));
    members.push((Member::CreatedAt, encoded(&texts.created_at)));
    members.push((Member::DecidedAt, optional_encoded(&texts.decided_at)));
    members.push((Member::FinishedAt, optional_encoded(&texts.finished_at)));
    members.push((Member::Revision, JsonValue::Number(told.revision.0)));
    assert(members_view(members@) =~= approval_members(session_id, record, state, *texts));
    members
}

/// The document of an event about approvals, as bytes.
pub fn approval_event_payload(
    action: ApprovalAction,
    session_id: SessionId,
    record: ApprovalRecord,
    state: ApprovalState,
    texts: &ApprovalTexts,
) -> (result: Result<Vec<u8>, StoreError>)
    ensures
        written(result, approval_members(session_id, record, state, *texts)),
        result matches Ok(data) ==> json_is_document(data@) && approval_of(record, state) is Some
            && tells(action, told_status(record, state), use_phase(record)) ==> event_target(
            session_id,
            record_revision(record).0,
            approval_event_text(action),
            Some(document(data@)),
        ) == Ok::<Option<TargetView>, StoreError>(Some(approval_target(record, state))),
{
    let members: Vec<(Member, JsonValue)> = list_approval(session_id, record, state, texts);
    proof {
        lemma_approval_members_differ(session_id, record, state, *texts);
    }
    let result: Result<Vec<u8>, StoreError> = write_members(members);
    proof {
        if result is Ok && json_is_document(result->Ok_0@) && approval_of(record, state) is Some
            && tells(action, told_status(record, state), use_phase(record)) {
            let data = result->Ok_0@;
            lemma_reads_approval(session_id, record, state, *texts, data);
            lemma_approval_target(action, session_id, record, state, document(data));
        }
    }
    result
}

} // verus!
