//! What an event says about the read models.

use crate::error::StoreError;
use crate::ids::SessionId;
use crate::projection::ProjectionView;
use crate::text::{
    contains, ends_with, format_uuid, parse_uuid, same_text, starts_with, uuid_text, uuid_value,
};
use vstd::prelude::*;
use vstd::string::StringExecFns;

verus! {

/// Whether `serde_json::from_slice` reads the bytes as a JSON value.
pub uninterp spec fn json_is_document(data: Seq<u8>) -> bool;

/// What `serde_json::Value::as_str` gives for the named member of the JSON value in the bytes.
pub uninterp spec fn json_text(data: Seq<u8>, name: Seq<char>) -> Option<Seq<char>>;

/// What `serde_json::Value::as_u64` gives for the named member of the JSON value in the bytes.
pub uninterp spec fn json_number(data: Seq<u8>, name: Seq<char>) -> Option<u64>;

/// Whether the JSON value in the bytes has the named member and `serde_json::Value::is_null`
/// is false of it.
pub uninterp spec fn json_is_present(data: Seq<u8>, name: Seq<char>) -> bool;

/// Whether `serde_json::Value::is_array` is true of the named member of the JSON value in the
/// bytes.
pub uninterp spec fn json_is_array(data: Seq<u8>, name: Seq<char>) -> bool;

/// One member of an event document, as far as the read models look at it.
pub struct JsonField {
    pub text: Option<String>,
    pub number: Option<u64>,
    pub present: bool,
    pub array: bool,
}

/// A member of an event document as a mathematical value.
pub ghost struct FieldView {
    pub text: Option<Seq<char>>,
    pub number: Option<u64>,
    pub present: bool,
    pub array: bool,
}

impl View for JsonField {
    type V = FieldView;

    open spec fn view(&self) -> FieldView {
        FieldView {
            text: match self.text {
                Some(text) => Some(text@),
                None => None,
            },
            number: self.number,
            present: self.present,
            array: self.array,
        }
    }
}

/// The named member of the document in the bytes.
pub open spec fn json_field(data: Seq<u8>, name: Seq<char>) -> FieldView {
    FieldView {
        text: json_text(data, name),
        number: json_number(data, name),
        present: json_is_present(data, name),
        array: json_is_array(data, name),
    }
}

/// `serde_json::from_slice` into a `serde_json::Value`, and of each named member what
/// `Value::get`, `as_str`, `as_u64`, `is_null` and `is_array` say. All of these depend on the
/// bytes and the name alone.
#[verifier::external_body]
fn read_members(data: &Vec<u8>, names: &Vec<&'static str>) -> (members: Option<Vec<JsonField>>)
    ensures
        members is Some <==> json_is_document(data@),
        members matches Some(fields) ==> fields.len() == names.len(),
        members matches Some(fields) ==> forall|i: int|
            0 <= i < names.len() ==> #[trigger] fields[i]@ == (FieldView {
                text: json_text(data@, names[i]@),
                number: json_number(data@, names[i]@),
                present: json_is_present(data@, names[i]@),
                array: json_is_array(data@, names[i]@),
            }),
{
    let value: serde_json::Value = serde_json::from_slice(data).ok()?;
    let read = |name: &&'static str| {
        let member = value.get(*name);
        JsonField {
            text: member.and_then(serde_json::Value::as_str).map(str::to_owned),
            number: member.and_then(serde_json::Value::as_u64),
            present: member.is_some_and(|member| !member.is_null()),
            array: member.is_some_and(serde_json::Value::is_array),
        }
    };
    Some(names.iter().map(read).collect())
}

/// The members of event documents that the read models look at.
#[derive(Clone, Copy, PartialEq, Eq, Debug, Structural)]
pub enum Field {
    SchemaVersion,
    SessionId,
    ParticipantId,
    ParentParticipantId,
    TemplateId,
    Depth,
    Revision,
    Lifecycle,
    OperationId,
    State,
    MessageId,
    Source,
    Destination,
    Status,
    Phase,
    DeliveryState,
    ApprovalId,
    GrantId,
    EffectId,
    RequestRevision,
    GrantRevision,
    EffectRevision,
    RequestId,
    EntityId,
    Classifications,
    ScopeId,
    Resource,
    Available,
    Total,
    FailureId,
    Code,
}

/// The name of a member.
pub open spec fn field_text(field: Field) -> Seq<char> {
    match field {
        Field::SchemaVersion => "schema_version"@,
        Field::SessionId => "session_id"@,
        Field::ParticipantId => "participant_id"@,
        Field::ParentParticipantId => "parent_participant_id"@,
        Field::TemplateId => "template_id"@,
        Field::Depth => "depth"@,
        Field::Revision => "revision"@,
        Field::Lifecycle => "lifecycle"@,
        Field::OperationId => "operation_id"@,
        Field::State => "state"@,
        Field::MessageId => "message_id"@,
        Field::Source => "source"@,
        Field::Destination => "destination"@,
        Field::Status => "status"@,
        Field::Phase => "phase"@,
        Field::DeliveryState => "delivery_state"@,
        Field::ApprovalId => "approval_id"@,
        Field::GrantId => "grant_id"@,
        Field::EffectId => "effect_id"@,
        Field::RequestRevision => "request_revision"@,
        Field::GrantRevision => "grant_revision"@,
        Field::EffectRevision => "effect_revision"@,
        Field::RequestId => "request_id"@,
        Field::EntityId => "entity_id"@,
        Field::Classifications => "classifications"@,
        Field::ScopeId => "scope_id"@,
        Field::Resource => "resource"@,
        Field::Available => "available"@,
        Field::Total => "total"@,
        Field::FailureId => "failure_id"@,
        Field::Code => "code"@,
    }
}

/// The place of a member in the list of members.
pub open spec fn field_index(field: Field) -> int {
    match field {
        Field::SchemaVersion => 0,
        Field::SessionId => 1,
        Field::ParticipantId => 2,
        Field::ParentParticipantId => 3,
        Field::TemplateId => 4,
        Field::Depth => 5,
        Field::Revision => 6,
        Field::Lifecycle => 7,
        Field::OperationId => 8,
        Field::State => 9,
        Field::MessageId => 10,
        Field::Source => 11,
        Field::Destination => 12,
        Field::Status => 13,
        Field::Phase => 14,
        Field::DeliveryState => 15,
        Field::ApprovalId => 16,
        Field::GrantId => 17,
        Field::EffectId => 18,
        Field::RequestRevision => 19,
        Field::GrantRevision => 20,
        Field::EffectRevision => 21,
        Field::RequestId => 22,
        Field::EntityId => 23,
        Field::Classifications => 24,
        Field::ScopeId => 25,
        Field::Resource => 26,
        Field::Available => 27,
        Field::Total => 28,
        Field::FailureId => 29,
        Field::Code => 30,
    }
}

fn place(field: Field) -> (index: usize)
    ensures
        index == field_index(field),
{
    match field {
        Field::SchemaVersion => 0,
        Field::SessionId => 1,
        Field::ParticipantId => 2,
        Field::ParentParticipantId => 3,
        Field::TemplateId => 4,
        Field::Depth => 5,
        Field::Revision => 6,
        Field::Lifecycle => 7,
        Field::OperationId => 8,
        Field::State => 9,
        Field::MessageId => 10,
        Field::Source => 11,
        Field::Destination => 12,
        Field::Status => 13,
        Field::Phase => 14,
        Field::DeliveryState => 15,
        Field::ApprovalId => 16,
        Field::GrantId => 17,
        Field::EffectId => 18,
        Field::RequestRevision => 19,
        Field::GrantRevision => 20,
        Field::EffectRevision => 21,
        Field::RequestId => 22,
        Field::EntityId => 23,
        Field::Classifications => 24,
        Field::ScopeId => 25,
        Field::Resource => 26,
        Field::Available => 27,
        Field::Total => 28,
        Field::FailureId => 29,
        Field::Code => 30,
    }
}

/// The members of one event document.
pub struct EventFields {
    members: Vec<JsonField>,
}

/// The members of the document in the bytes.
pub open spec fn document(data: Seq<u8>) -> Map<Field, FieldView> {
    Map::new(|field: Field| true, |field: Field| json_field(data, field_text(field)))
}

impl View for EventFields {
    type V = Map<Field, FieldView>;

    closed spec fn view(&self) -> Map<Field, FieldView> {
        Map::new(|field: Field| true, |field: Field| self.members[field_index(field)]@)
    }
}

impl EventFields {
    /// Every member has its place.
    pub closed spec fn wf(&self) -> bool {
        self.members.len() == 31
    }

    /// The text of a member, where it is a text.
    pub fn text(&self, field: Field) -> (text: Option<&String>)
        requires
            self.wf(),
        ensures
            self@[field].text == (match text {
                Some(text) => Some(text@),
                None => None,
            }),
    {
        let index: usize = place(field);
        match &self.members[index].text {
            Some(text) => Some(text),
            None => None,
        }
    }

    /// Whether a member is the given text.
    pub fn text_is(&self, field: Field, expected: &str) -> (result: bool)
        requires
            self.wf(),
        ensures
            result == (self@[field].text == Some(expected@)),
    {
        match self.text(field) {
            Some(text) => same_text(text.as_str(), expected),
            None => false,
        }
    }

    /// The value of a member, where it is an unsigned integer.
    pub fn number(&self, field: Field) -> (number: Option<u64>)
        requires
            self.wf(),
        ensures
            number == self@[field].number,
    {
        let index: usize = place(field);
        self.members[index].number
    }

    /// Whether a member is there and not null.
    pub fn present(&self, field: Field) -> (result: bool)
        requires
            self.wf(),
        ensures
            result == self@[field].present,
    {
        let index: usize = place(field);
        self.members[index].present
    }

    /// Whether a member is a list.
    pub fn array(&self, field: Field) -> (result: bool)
        requires
            self.wf(),
        ensures
            result == self@[field].array,
    {
        let index: usize = place(field);
        self.members[index].array
    }
}

/// Reads the document of an event, where the bytes hold one.
pub fn read_document(data: &Vec<u8>) -> (fields: Option<EventFields>)
    ensures
        fields is Some <==> json_is_document(data@),
        fields matches Some(fields) ==> fields.wf() && fields@ == document(data@),
{
    let names: Vec<&'static str> = vec![
        "schema_version",
        "session_id",
        "participant_id",
        "parent_participant_id",
        "template_id",
        "depth",
        "revision",
        "lifecycle",
        "operation_id",
        "state",
        "message_id",
        "source",
        "destination",
        "status",
        "phase",
        "delivery_state",
        "approval_id",
        "grant_id",
        "effect_id",
        "request_revision",
        "grant_revision",
        "effect_revision",
        "request_id",
        "entity_id",
        "classifications",
        "scope_id",
        "resource",
        "available",
        "total",
        "failure_id",
        "code",
    ];
    match read_members(data, &names) {
        Some(members) => {
            let fields = EventFields { members };
            proof {
                assert forall|field: Field| #[trigger] fields@[field] == document(data@)[field] by {
                    assert(names[field_index(field)]@ == field_text(field));
                    assert(members[field_index(field)]@ == json_field(
                        data@,
                        names[field_index(field)]@,
                    ));
                }
                assert(fields@ =~= document(data@));
            }
            Some(fields)
        },
        None => None,
    }
}

/// Whether an event type belongs to a family that the read models follow.
pub open spec fn recognized(kind: Seq<char>) -> bool {
    ||| "participant."@.is_prefix_of(kind)
    ||| "operation."@.is_prefix_of(kind)
    ||| "message."@.is_prefix_of(kind)
    ||| "approval."@.is_prefix_of(kind)
    ||| "recovery."@.is_prefix_of(kind)
    ||| "capacity."@.is_prefix_of(kind)
    ||| "failure."@.is_prefix_of(kind)
}

/// Event types that announce a request rather than a change.
pub open spec fn announcement(kind: Seq<char>) -> bool {
    kind == "participant.create_root"@ || kind == "participant.create_child"@
}

/// A text member that names a UUID.
pub open spec fn uuid_member(text: Option<Seq<char>>) -> Option<Seq<char>> {
    match text {
        Some(id) => if id.len() > 0 && uuid_value(id) is Some {
            Some(id)
        } else {
            None
        },
        None => None,
    }
}

/// The first of two text members that is there.
pub open spec fn first_text(first: Option<Seq<char>>, second: Option<Seq<char>>) -> Option<
    Seq<char>,
> {
    if first is Some {
        first
    } else {
        second
    }
}

/// The participant that a participant event is about.
pub open spec fn participant_key(kind: Seq<char>, doc: Map<Field, FieldView>) -> Option<Seq<char>> {
    if doc[Field::ParticipantId].present && doc[Field::TemplateId].present
        && doc[Field::Depth].present && doc[Field::Revision].present && doc[Field::Lifecycle].present
        && kind == "participant.created"@ && doc[Field::Lifecycle].text == Some("registered"@) {
        uuid_member(doc[Field::ParticipantId].text)
    } else {
        None
    }
}

/// The operation that an operation event is about: the event type ends in the state it tells.
pub open spec fn operation_key(kind: Seq<char>, doc: Map<Field, FieldView>) -> Option<Seq<char>> {
    if doc[Field::OperationId].present && doc[Field::ParticipantId].present
        && doc[Field::State].present && doc[Field::Revision].present && (
    doc[Field::State].text matches Some(state) && kind == "operation."@ + state) && uuid_member(
        doc[Field::ParticipantId].text,
    ) is Some {
        uuid_member(doc[Field::OperationId].text)
    } else {
        None
    }
}

/// Whether a message event tells the state that its type stands for.
pub open spec fn message_state_matches(kind: Seq<char>, state: Option<Seq<char>>) -> bool {
    if kind == "message.enqueued"@ {
        state == Some("queued"@)
    } else {
        state matches Some(state) && kind == "message."@ + state
    }
}

/// The message that a message event is about.
pub open spec fn message_key(kind: Seq<char>, doc: Map<Field, FieldView>) -> Option<Seq<char>> {
    if doc[Field::MessageId].present && doc[Field::Source].present
        && doc[Field::Destination].present && doc[Field::State].present
        && doc[Field::Revision].present && message_state_matches(kind, doc[Field::State].text)
        && uuid_member(doc[Field::Source].text) is Some && uuid_member(
        doc[Field::Destination].text,
    ) is Some {
        uuid_member(doc[Field::MessageId].text)
    } else {
        None
    }
}

/// Whether an approval event tells the status that its type stands for.
pub open spec fn approval_coherent(kind: Seq<char>, doc: Map<Field, FieldView>) -> bool {
    let status = doc[Field::Status].text;
    let phase = doc[Field::Phase].text;
    if kind == "approval.requested"@ {
        status == Some("pending"@)
    } else if kind == "approval.granted"@ {
        status == Some("granted"@)
    } else if kind == "approval.denied"@ {
        status == Some("denied"@)
    } else if kind == "approval.expired"@ {
        status == Some("expired"@)
    } else if kind == "approval.revoked"@ {
        status == Some("revoked"@)
    } else if kind == "approval.consumed"@ {
        status == Some("granted"@) || status == Some("consumed"@)
    } else {
        kind == "approval.effect.finished"@ && (phase == Some("succeeded"@) || phase == Some(
            "failed"@,
        ) || phase == Some("uncertain"@))
    }
}

/// The approval that an approval event is about.
pub open spec fn approval_key(kind: Seq<char>, doc: Map<Field, FieldView>) -> Option<Seq<char>> {
    if approval_coherent(kind, doc) {
        uuid_member(doc[Field::ApprovalId].text)
    } else {
        None
    }
}

/// The entity, or else the request, that a recovery event is about.
pub open spec fn recovery_key(kind: Seq<char>, doc: Map<Field, FieldView>) -> Option<Seq<char>> {
    if doc[Field::RequestId].present && doc[Field::Classifications].present && kind
        == "recovery.classified"@ && doc[Field::Classifications].array {
        uuid_member(first_text(doc[Field::EntityId].text, doc[Field::RequestId].text))
    } else {
        None
    }
}

/// The scope, or else the resource, that a capacity event is about.
pub open spec fn capacity_key(kind: Seq<char>, doc: Map<Field, FieldView>) -> Option<Seq<char>> {
    if kind == "capacity.observed"@ && doc[Field::ScopeId].present && doc[Field::Resource].present
        && doc[Field::Available].present && doc[Field::Total].present
        && doc[Field::Revision].present && (doc[Field::Available].number matches Some(available)
        && doc[Field::Total].number matches Some(total) && available <= total) {
        match first_text(doc[Field::ScopeId].text, doc[Field::Resource].text) {
            Some(id) => if id.len() > 0 {
                Some(id)
            } else {
                None
            },
            None => None,
        }
    } else {
        None
    }
}

/// The failure that a failure event is about.
pub open spec fn failure_key(kind: Seq<char>, doc: Map<Field, FieldView>) -> Option<Seq<char>> {
    if kind == "failure.recorded"@ && doc[Field::FailureId].present && doc[Field::Code].present
        && doc[Field::EntityId].present && doc[Field::Revision].present
        && doc[Field::Code].text is Some && doc[Field::EntityId].text is Some {
        uuid_member(doc[Field::FailureId].text)
    } else {
        None
    }
}

/// The read model and the item that an event is about.
pub open spec fn subject(kind: Seq<char>, doc: Map<Field, FieldView>) -> Option<
    (ProjectionView, Seq<char>),
> {
    let (view, key) = if "participant."@.is_prefix_of(kind) {
        (ProjectionView::SessionTree, participant_key(kind, doc))
    } else if "operation."@.is_prefix_of(kind) {
        (ProjectionView::ActiveWork, operation_key(kind, doc))
    } else if "message."@.is_prefix_of(kind) {
        (ProjectionView::Delivery, message_key(kind, doc))
    } else if "approval."@.is_prefix_of(kind) {
        (ProjectionView::Approval, approval_key(kind, doc))
    } else if "recovery."@.is_prefix_of(kind) {
        (ProjectionView::Recovery, recovery_key(kind, doc))
    } else if "capacity."@.is_prefix_of(kind) {
        (ProjectionView::Capacity, capacity_key(kind, doc))
    } else {
        (ProjectionView::Failure, failure_key(kind, doc))
    };
    match key {
        Some(key) => Some((view, key)),
        None => None,
    }
}

/// The state that a document tells: the first of these members that is a text.
pub open spec fn told_state(doc: Map<Field, FieldView>) -> Option<Seq<char>> {
    first_text(
        doc[Field::State].text,
        first_text(
            doc[Field::Status].text,
            first_text(
                doc[Field::Phase].text,
                first_text(doc[Field::DeliveryState].text, doc[Field::Lifecycle].text),
            ),
        ),
    )
}

/// States after which nothing more happens to an item.
pub open spec fn terminal_state(state: Option<Seq<char>>) -> bool {
    ||| state == Some("succeeded"@)
    ||| state == Some("failed"@)
    ||| state == Some("cancelled"@)
    ||| state == Some("consumed"@)
    ||| state == Some("denied"@)
    ||| state == Some("expired"@)
    ||| state == Some("revoked"@)
    ||| state == Some("accepted"@)
    ||| state == Some("dead_lettered"@)
}

/// Event types that also add an item to the failure view.
pub open spec fn failing(kind: Seq<char>) -> bool {
    ||| ".failed"@.is_suffix_of(kind)
    ||| ".dead_lettered"@.is_suffix_of(kind)
    ||| ".uncertain"@.is_suffix_of(kind)
}

/// What an event changes: an item of a read model, and perhaps an item of the failure view
/// named after the event type and that item.
pub struct EventTarget {
    pub view: ProjectionView,
    pub key: String,
    pub terminal: bool,
    pub failure_key: Option<String>,
}

/// An event target as a mathematical value.
pub ghost struct TargetView {
    pub view: ProjectionView,
    pub key: Seq<char>,
    pub terminal: bool,
    pub failure_key: Option<Seq<char>>,
}

impl View for EventTarget {
    type V = TargetView;

    open spec fn view(&self) -> TargetView {
        TargetView {
            view: self.view,
            key: self.key@,
            terminal: self.terminal,
            failure_key: match self.failure_key {
                Some(key) => Some(key@),
                None => None,
            },
        }
    }
}

/// What a document of a followed event changes; nothing where the document is not sound.
pub open spec fn document_target(
    session_id: SessionId,
    revision: u64,
    kind: Seq<char>,
    doc: Map<Field, FieldView>,
) -> Option<TargetView> {
    match subject(kind, doc) {
        Some((view, key)) => if doc[Field::SchemaVersion].number == Some(1u64)
            && doc[Field::SessionId].text == Some(uuid_text(session_id.0))
            && doc[Field::Revision].number == Some(revision) {
            Some(
                TargetView {
                    view,
                    key,
                    terminal: terminal_state(told_state(doc)),
                    failure_key: if failing(kind) {
                        Some(kind + ":"@ + key)
                    } else {
                        None
                    },
                },
            )
        } else {
            None
        },
        None => None,
    }
}

/// What an event changes: nothing for families that are not followed, an error for a followed
/// event without a sound document, and otherwise a target.
pub open spec fn event_target(
    session_id: SessionId,
    revision: u64,
    kind: Seq<char>,
    doc: Option<Map<Field, FieldView>>,
) -> Result<Option<TargetView>, StoreError> {
    if !recognized(kind) || announcement(kind) {
        Ok(None)
    } else {
        match doc {
            Some(doc) => match document_target(session_id, revision, kind, doc) {
                Some(target) => Ok(Some(target)),
                None => Err(StoreError::Corrupt),
            },
            None => Err(StoreError::Corrupt),
        }
    }
}

fn uuid_key(text: Option<&String>) -> (key: Option<String>)
    ensures
        opt_text(key) == uuid_member(match text {
            Some(text) => Some(text@),
            None => None,
        }),
{
    match text {
        Some(text) => if !is_empty(text) && parse_uuid(text.as_str()).is_some() {
            Some(text.clone())
        } else {
            None
        },
        None => None,
    }
}

/// The characters of an optional text.
pub open spec fn opt_text(text: Option<String>) -> Option<Seq<char>> {
    match text {
        Some(text) => Some(text@),
        None => None,
    }
}

fn is_empty(text: &String) -> (result: bool)
    ensures
        result == (text@.len() == 0),
{
    proof {
        reveal_strlit("");
        assert(text@.len() == 0 ==> text@ =~= ""@);
    }
    same_text(text.as_str(), "")
}

fn joined_is(text: &str, head: &'static str, tail: &String) -> (result: bool)
    ensures
        result == (text@ == head@ + tail@),
{
    let mut joined: String = head.to_owned();
    joined.append(tail.as_str());
    same_text(text, joined.as_str())
}

fn find_participant_key(kind: &str, doc: &EventFields) -> (key: Option<String>)
    requires
        doc.wf(),
    ensures
        opt_text(key) == participant_key(kind@, doc@),
{
    if doc.present(Field::ParticipantId) && doc.present(Field::TemplateId) && doc.present(
        Field::Depth,
    ) && doc.present(Field::Revision) && doc.present(Field::Lifecycle) && same_text(
        kind,
        "participant.created",
    ) && doc.text_is(Field::Lifecycle, "registered") {
        uuid_key(doc.text(Field::ParticipantId))
    } else {
        None
    }
}

fn find_operation_key(kind: &str, doc: &EventFields) -> (key: Option<String>)
    requires
        doc.wf(),
    ensures
        opt_text(key) == operation_key(kind@, doc@),
{
    let tells: bool = match doc.text(Field::State) {
        Some(state) => joined_is(kind, "operation.", state),
        None => false,
    };
    if doc.present(Field::OperationId) && doc.present(Field::ParticipantId) && doc.present(
        Field::State,
    ) && doc.present(Field::Revision) && tells && uuid_key(
        doc.text(Field::ParticipantId),
    ).is_some() {
        uuid_key(doc.text(Field::OperationId))
    } else {
        None
    }
}

fn find_message_key(kind: &str, doc: &EventFields) -> (key: Option<String>)
    requires
        doc.wf(),
    ensures
        opt_text(key) == message_key(kind@, doc@),
{
    let tells: bool = if same_text(kind, "message.enqueued") {
        doc.text_is(Field::State, "queued")
    } else {
        match doc.text(Field::State) {
            Some(state) => joined_is(kind, "message.", state),
            None => false,
        }
    };
    if doc.present(Field::MessageId) && doc.present(Field::Source) && doc.present(
        Field::Destination,
    ) && doc.present(Field::State) && doc.present(Field::Revision) && tells && uuid_key(
        doc.text(Field::Source),
    ).is_some() && uuid_key(doc.text(Field::Destination)).is_some() {
        uuid_key(doc.text(Field::MessageId))
    } else {
        None
    }
}

fn find_approval_key(kind: &str, doc: &EventFields) -> (key: Option<String>)
    requires
        doc.wf(),
    ensures
        opt_text(key) == approval_key(kind@, doc@),
{
    let coherent: bool = if same_text(kind, "approval.requested") {
        doc.text_is(Field::Status, "pending")
    } else if same_text(kind, "approval.granted") {
        doc.text_is(Field::Status, "granted")
    } else if same_text(kind, "approval.denied") {
        doc.text_is(Field::Status, "denied")
    } else if same_text(kind, "approval.expired") {
        doc.text_is(Field::Status, "expired")
    } else if same_text(kind, "approval.revoked") {
        doc.text_is(Field::Status, "revoked")
    } else if same_text(kind, "approval.consumed") {
        doc.text_is(Field::Status, "granted") || doc.text_is(Field::Status, "consumed")
    } else {
        same_text(kind, "approval.effect.finished") && (doc.text_is(Field::Phase, "succeeded")
            || doc.text_is(Field::Phase, "failed") || doc.text_is(Field::Phase, "uncertain"))
    };
    if coherent {
        uuid_key(doc.text(Field::ApprovalId))
    } else {
        None
    }
}

fn find_recovery_key(kind: &str, doc: &EventFields) -> (key: Option<String>)
    requires
        doc.wf(),
    ensures
        opt_text(key) == recovery_key(kind@, doc@),
{
    if doc.present(Field::RequestId) && doc.present(Field::Classifications) && same_text(
        kind,
        "recovery.classified",
    ) && doc.array(Field::Classifications) {
        if doc.text(Field::EntityId).is_some() {
            uuid_key(doc.text(Field::EntityId))
        } else {
            uuid_key(doc.text(Field::RequestId))
        }
    } else {
        None
    }
}

fn find_capacity_key(kind: &str, doc: &EventFields) -> (key: Option<String>)
    requires
        doc.wf(),
    ensures
        opt_text(key) == capacity_key(kind@, doc@),
{
    let within: bool = match (doc.number(Field::Available), doc.number(Field::Total)) {
        (Some(available), Some(total)) => available <= total,
        _ => false,
    };
    if same_text(kind, "capacity.observed") && doc.present(Field::ScopeId) && doc.present(
        Field::Resource,
    ) && doc.present(Field::Available) && doc.present(Field::Total) && doc.present(Field::Revision)
        && within {
        let text: Option<&String> = match doc.text(Field::ScopeId) {
            Some(text) => Some(text),
            None => doc.text(Field::Resource),
        };
        match text {
            Some(text) => if !is_empty(text) {
                Some(text.clone())
            } else {
                None
            },
            None => None,
        }
    } else {
        None
    }
}

fn find_failure_key(kind: &str, doc: &EventFields) -> (key: Option<String>)
    requires
        doc.wf(),
    ensures
        opt_text(key) == failure_key(kind@, doc@),
{
    if same_text(kind, "failure.recorded") && doc.present(Field::FailureId) && doc.present(
        Field::Code,
    ) && doc.present(Field::EntityId) && doc.present(Field::Revision) && doc.text(
        Field::Code,
    ).is_some() && doc.text(Field::EntityId).is_some() {
        uuid_key(doc.text(Field::FailureId))
    } else {
        None
    }
}

fn find_subject(kind: &str, doc: &EventFields) -> (found: Option<(ProjectionView, String)>)
    requires
        doc.wf(),
    ensures
        subject(kind@, doc@) == (match found {
            Some((view, key)) => Some((view, key@)),
            None => None,
        }),
{
    let (view, key): (ProjectionView, Option<String>) = if starts_with(kind, "participant.") {
        (ProjectionView::SessionTree, find_participant_key(kind, doc))
    } else if starts_with(kind, "operation.") {
        (ProjectionView::ActiveWork, find_operation_key(kind, doc))
    } else if starts_with(kind, "message.") {
        (ProjectionView::Delivery, find_message_key(kind, doc))
    } else if starts_with(kind, "approval.") {
        (ProjectionView::Approval, find_approval_key(kind, doc))
    } else if starts_with(kind, "recovery.") {
        (ProjectionView::Recovery, find_recovery_key(kind, doc))
    } else if starts_with(kind, "capacity.") {
        (ProjectionView::Capacity, find_capacity_key(kind, doc))
    } else {
        (ProjectionView::Failure, find_failure_key(kind, doc))
    };
    match key {
        Some(key) => Some((view, key)),
        None => None,
    }
}

fn tells_terminal_state(doc: &EventFields) -> (result: bool)
    requires
        doc.wf(),
    ensures
        result == terminal_state(told_state(doc@)),
{
    let field: Field = if doc.text(Field::State).is_some() {
        Field::State
    } else if doc.text(Field::Status).is_some() {
        Field::Status
    } else if doc.text(Field::Phase).is_some() {
        Field::Phase
    } else if doc.text(Field::DeliveryState).is_some() {
        Field::DeliveryState
    } else {
        Field::Lifecycle
    };
    doc.text_is(field, "succeeded") || doc.text_is(field, "failed") || doc.text_is(
        field,
        "cancelled",
    ) || doc.text_is(field, "consumed") || doc.text_is(field, "denied") || doc.text_is(
        field,
        "expired",
    ) || doc.text_is(field, "revoked") || doc.text_is(field, "accepted") || doc.text_is(
        field,
        "dead_lettered",
    )
}

/// What an event changes in the read models.
///
/// `doc` is the document of the event, where its bytes hold one.
pub fn projection_event_targets(
    session_id: SessionId,
    event_revision: u64,
    event_type: &str,
    doc: Option<&EventFields>,
) -> (target: Result<Option<EventTarget>, StoreError>)
    requires
        doc matches Some(doc) ==> doc.wf(),
    ensures
        event_target(
            session_id,
            event_revision,
            event_type@,
            match doc {
                Some(doc) => Some(doc@),
                None => None,
            },
        ) == (match target {
            Ok(Some(target)) => Ok::<Option<TargetView>, StoreError>(Some(target@)),
            Ok(None) => Ok(None),
            Err(error) => Err(error),
        }),
{
    let followed: bool = starts_with(event_type, "participant.") || starts_with(
        event_type,
        "operation.",
    ) || starts_with(event_type, "message.") || starts_with(event_type, "approval.")
        || starts_with(event_type, "recovery.") || starts_with(event_type, "capacity.")
        || starts_with(event_type, "failure.");
    if !followed || same_text(event_type, "participant.create_root") || same_text(
        event_type,
        "participant.create_child",
    ) {
        return Ok(None);
    }
    let doc: &EventFields = match doc {
        Some(doc) => doc,
        None => {
            return Err(StoreError::Corrupt);
        },
    };
    let session: String = format_uuid(session_id.0);
    if doc.number(Field::SchemaVersion) != Some(1u64) || !doc.text_is(
        Field::SessionId,
        session.as_str(),
    ) {
        return Err(StoreError::Corrupt);
    }
    match find_subject(event_type, doc) {
        Some((view, key)) => {
            if doc.number(Field::Revision) != Some(event_revision) {
                return Err(StoreError::Corrupt);
            }
            let terminal: bool = tells_terminal_state(doc);
            let fails: bool = ends_with(event_type, ".failed") || ends_with(
                event_type,
                ".dead_lettered",
            ) || ends_with(event_type, ".uncertain");
            let failure_key: Option<String> = if fails {
                let mut name: String = event_type.to_owned();
                name.append(":");
                name.append(key.as_str());
                Some(name)
            } else {
                None
            };
            Ok(Some(EventTarget { view, key, terminal, failure_key }))
        },
        None => Err(StoreError::Corrupt),
    }
}

/// The moves that the read models accept, by event type.
pub open spec fn transition_allowed(
    view: ProjectionView,
    previous: Seq<char>,
    next: Seq<char>,
) -> bool {
    match view {
        ProjectionView::ActiveWork => {
            ||| previous == "operation.queued"@ && (next == "operation.starting"@ || next
                == "operation.cancelling"@)
            ||| previous == "operation.starting"@ && (next == "operation.running"@ || next
                == "operation.failed"@ || next == "operation.uncertain"@)
            ||| previous == "operation.running"@ && (next == "operation.waiting"@ || next
                == "operation.cancelling"@ || next == "operation.succeeded"@ || next
                == "operation.failed"@ || next == "operation.blocked"@ || next
                == "operation.uncertain"@)
            ||| previous == "operation.waiting"@ && (next == "operation.running"@ || next
                == "operation.cancelling"@ || next == "operation.failed"@ || next
                == "operation.blocked"@ || next == "operation.uncertain"@)
            ||| previous == "operation.cancelling"@ && (next == "operation.cancelled"@ || next
                == "operation.failed"@ || next == "operation.uncertain"@)
        },
        ProjectionView::Delivery => {
            ||| (previous == "message.enqueued"@ || previous == "message.retry_scheduled"@)
                && next == "message.leased"@
            ||| previous == "message.leased"@ && (next == "message.retry_scheduled"@ || next
                == "message.acceptance_pending"@ || next == "message.dead_lettered"@)
            ||| previous == "message.acceptance_pending"@ && (next == "message.accepted"@ || next
                == "message.acceptance_unknown"@ || next == "message.uncertain"@)
            ||| previous == "message.acceptance_unknown"@ && (next == "message.accepted"@ || next
                == "message.uncertain"@)
        },
        ProjectionView::SessionTree => previous == next && previous == "participant.created"@,
        ProjectionView::Recovery | ProjectionView::Capacity | ProjectionView::Failure => false,
        ProjectionView::Approval => true,
    }
}

/// Whether a read model accepts `next` after `previous` for one item.
pub fn projection_transition_allowed(view: ProjectionView, previous: &str, next: &str) -> (result:
    bool)
    ensures
        result == transition_allowed(view, previous@, next@),
{
    match view {
        ProjectionView::ActiveWork => {
            if same_text(previous, "operation.queued") {
                proof {
                    reveal_operation_names();
                }
                same_text(next, "operation.starting") || same_text(next, "operation.cancelling")
            } else if same_text(previous, "operation.starting") {
                proof {
                    reveal_operation_names();
                }
                same_text(next, "operation.running") || same_text(next, "operation.failed")
                    || same_text(next, "operation.uncertain")
            } else if same_text(previous, "operation.running") {
                proof {
                    reveal_operation_names();
                }
                same_text(next, "operation.waiting") || same_text(next, "operation.cancelling")
                    || same_text(next, "operation.succeeded") || same_text(
                    next,
                    "operation.failed",
                ) || same_text(next, "operation.blocked") || same_text(next, "operation.uncertain")
            } else if same_text(previous, "operation.waiting") {
                proof {
                    reveal_operation_names();
                }
                same_text(next, "operation.running") || same_text(next, "operation.cancelling")
                    || same_text(next, "operation.failed") || same_text(next, "operation.blocked")
                    || same_text(next, "operation.uncertain")
            } else {
                same_text(previous, "operation.cancelling") && (same_text(
                    next,
                    "operation.cancelled",
                ) || same_text(next, "operation.failed") || same_text(next, "operation.uncertain"))
            }
        },
        ProjectionView::Delivery => {
            ((same_text(previous, "message.enqueued") || same_text(
                previous,
                "message.retry_scheduled",
            )) && same_text(next, "message.leased")) || (same_text(previous, "message.leased") && (
            same_text(next, "message.retry_scheduled") || same_text(
                next,
                "message.acceptance_pending",
            ) || same_text(next, "message.dead_lettered"))) || (same_text(
                previous,
                "message.acceptance_pending",
            ) && (same_text(next, "message.accepted") || same_text(
                next,
                "message.acceptance_unknown",
            ) || same_text(next, "message.uncertain"))) || (same_text(
                previous,
                "message.acceptance_unknown",
            ) && (same_text(next, "message.accepted") || same_text(next, "message.uncertain")))
        },
        ProjectionView::SessionTree => same_text(previous, next) && same_text(
            previous,
            "participant.created",
        ),
        ProjectionView::Recovery | ProjectionView::Capacity | ProjectionView::Failure => false,
        ProjectionView::Approval => true,
    }
}

/// The states named by operation events have different names.
pub proof fn reveal_operation_names()
    ensures
        "operation.queued"@ != "operation.starting"@,
        "operation.queued"@ != "operation.running"@,
        "operation.queued"@ != "operation.waiting"@,
        "operation.queued"@ != "operation.cancelling"@,
        "operation.starting"@ != "operation.running"@,
        "operation.starting"@ != "operation.waiting"@,
        "operation.starting"@ != "operation.cancelling"@,
        "operation.running"@ != "operation.waiting"@,
        "operation.running"@ != "operation.cancelling"@,
        "operation.waiting"@ != "operation.cancelling"@,
{
    reveal_strlit("operation.queued");
    reveal_strlit("operation.starting");
    reveal_strlit("operation.running");
    reveal_strlit("operation.waiting");
    reveal_strlit("operation.cancelling");
    assert("operation.queued"@[10] != "operation.starting"@[10]);
    assert("operation.queued"@[10] != "operation.running"@[10]);
    assert("operation.queued"@[10] != "operation.waiting"@[10]);
    assert("operation.queued"@[10] != "operation.cancelling"@[10]);
    assert("operation.starting"@[10] != "operation.running"@[10]);
    assert("operation.starting"@[10] != "operation.waiting"@[10]);
    assert("operation.starting"@[10] != "operation.cancelling"@[10]);
    assert("operation.running"@[10] != "operation.waiting"@[10]);
    assert("operation.running"@[10] != "operation.cancelling"@[10]);
    assert("operation.waiting"@[10] != "operation.cancelling"@[10]);
}

/// The event types with which an item of a read model may begin.
pub open spec fn initial_event(view: ProjectionView, kind: Seq<char>) -> bool {
    match view {
        ProjectionView::SessionTree => kind == "participant.created"@,
        ProjectionView::ActiveWork => kind == "operation.queued"@,
        ProjectionView::Delivery => kind == "message.enqueued"@,
        ProjectionView::Recovery => kind == "recovery.classified"@,
        ProjectionView::Capacity => kind == "capacity.observed"@,
        ProjectionView::Failure => {
            ||| kind == "failure.recorded"@
            ||| crate::text::occurs_in("failed"@, kind)
            ||| ".uncertain"@.is_suffix_of(kind)
            ||| ".dead_lettered"@.is_suffix_of(kind)
        },
        ProjectionView::Approval => false,
    }
}

/// Whether an item of a read model may begin with an event type.
pub fn projection_initial_event(view: ProjectionView, kind: &str) -> (result: bool)
    ensures
        result == initial_event(view, kind@),
{
    match view {
        ProjectionView::SessionTree => same_text(kind, "participant.created"),
        ProjectionView::ActiveWork => same_text(kind, "operation.queued"),
        ProjectionView::Delivery => same_text(kind, "message.enqueued"),
        ProjectionView::Recovery => same_text(kind, "recovery.classified"),
        ProjectionView::Capacity => same_text(kind, "capacity.observed"),
        ProjectionView::Failure => same_text(kind, "failure.recorded") || contains(kind, "failed")
            || ends_with(kind, ".uncertain") || ends_with(kind, ".dead_lettered"),
        ProjectionView::Approval => false,
    }
}

} // verus!
