//! Rebuilding the read models of a session from its events.

use crate::error::StoreError;
use crate::ids::{to_u64, SessionId};
use crate::projection::event::{
    document, event_target, initial_event, json_is_document, projection_event_targets,
    projection_initial_event, projection_transition_allowed, read_document, transition_allowed,
    EventFields, EventTarget, Field, FieldView,
};
use crate::projection::table::{keys_of, Table};
use crate::projection::ProjectionView;
use crate::text::same_text;
use vstd::prelude::*;

verus! {

/// How long a page token stays good, and how long a retired generation is kept, in seconds.
pub const PROJECTION_GRACE_SECONDS: i64 = 60;

/// A stored event, as the read models see it.
pub struct ProjectionEvent {
    pub event_id: String,
    pub position: i64,
    pub revision: i64,
    pub event_type: String,
    pub schema_version: i64,
    pub data: Vec<u8>,
}

/// Where an approval stands.
#[derive(Clone, Copy, PartialEq, Eq, Debug, Structural)]
pub enum ApprovalPhase {
    Requested,
    Granted,
    Denied,
    Expired,
    Revoked,
    Consumed,
}

/// What has been seen of an approval.
#[derive(Clone, Copy, PartialEq, Eq, Debug, Structural)]
pub struct ApprovalFacts {
    pub phase: ApprovalPhase,
    pub revision: u64,
}

/// What has been seen of a grant: the event that gave it, and its latest revision.
#[derive(Clone, Copy, PartialEq, Eq, Debug, Structural)]
pub struct GrantFacts {
    pub event: usize,
    pub revision: u64,
}

/// What has been seen of an approval effect.
#[derive(Clone, Copy, PartialEq, Eq, Debug, Structural)]
pub struct EffectFacts {
    pub revision: u64,
    pub completed: bool,
}

/// The latest event of an item.
#[derive(Clone, Copy, PartialEq, Eq, Debug, Structural)]
pub struct HistoryFacts {
    pub event: usize,
    pub revision: u64,
    pub terminal: bool,
}

/// Where the contents of a row come from: an event, or the capacity metrics of the session.
#[derive(Clone, Copy, PartialEq, Eq, Debug, Structural)]
pub enum RowSource {
    Event { index: usize },
    CapacityMetrics,
}

/// Everything that has been seen after a number of events.
pub ghost struct FoldView {
    pub tree: Map<(ProjectionView, Seq<char>), usize>,
    pub approvals: Map<(ProjectionView, Seq<char>), ApprovalFacts>,
    pub grants: Map<(ProjectionView, Seq<char>), GrantFacts>,
    pub effects: Map<(ProjectionView, Seq<char>), EffectFacts>,
    pub histories: Map<(ProjectionView, Seq<char>), HistoryFacts>,
    pub rows: Map<(ProjectionView, Seq<char>), RowSource>,
}

/// Nothing has been seen yet.
pub open spec fn nothing_seen() -> FoldView {
    FoldView {
        tree: Map::empty(),
        approvals: Map::empty(),
        grants: Map::empty(),
        effects: Map::empty(),
        histories: Map::empty(),
        rows: Map::empty(),
    }
}

/// The document of an event.
pub open spec fn doc_of(events: Seq<ProjectionEvent>, index: int) -> Map<Field, FieldView> {
    document(events[index].data@)
}

/// Whether a participant without a parent has been seen.
pub open spec fn rooted(
    tree: Map<(ProjectionView, Seq<char>), usize>,
    events: Seq<ProjectionEvent>,
) -> bool {
    exists|name: (ProjectionView, Seq<char>)| #[trigger]
        tree.contains_key(name) && doc_of(events, tree[name] as int)[Field::ParentParticipantId].text
            is None
}

/// Places a participant in the tree.
///
/// A participant that is already there must keep its parent and its depth. A new one is either
/// the only root, at depth one, or stands directly below its parent.
pub open spec fn tree_step(
    seen: FoldView,
    events: Seq<ProjectionEvent>,
    index: int,
    key: Seq<char>,
) -> Option<FoldView> {
    let doc = doc_of(events, index);
    let parent = doc[Field::ParentParticipantId].text;
    let depth = doc[Field::Depth].number;
    let name = (ProjectionView::SessionTree, key);
    if seen.tree.contains_key(name) {
        let prior = doc_of(events, seen.tree[name] as int);
        if (parent is Some && parent != prior[Field::ParentParticipantId].text) || (depth is Some
            && depth != prior[Field::Depth].number) {
            None
        } else {
            Some(seen)
        }
    } else {
        let placed = match (depth, parent) {
            (Some(depth), None) => depth == 1 && !rooted(seen.tree, events),
            (Some(depth), Some(parent)) => {
                let above = (ProjectionView::SessionTree, parent);
                &&& seen.tree.contains_key(above)
                &&& doc_of(events, seen.tree[above] as int)[Field::Depth].number matches Some(
                    parent_depth,
                )
                &&& depth == parent_depth + 1
            },
            _ => false,
        };
        if placed {
            Some(FoldView { tree: seen.tree.insert(name, index as usize), ..seen })
        } else {
            None
        }
    }
}

/// Whether a grant has been given to an approval.
pub open spec fn granted_to(
    seen: FoldView,
    events: Seq<ProjectionEvent>,
    grant: Seq<char>,
    approval: Seq<char>,
) -> bool {
    let name = (ProjectionView::Approval, grant);
    &&& seen.grants.contains_key(name)
    &&& doc_of(events, seen.grants[name].event as int)[Field::ApprovalId].text == Some(approval)
}

/// An approval is asked for: it is new, at its first revision, and names no grant.
pub open spec fn requested_step(
    seen: FoldView,
    doc: Map<Field, FieldView>,
    key: Seq<char>,
) -> Option<FoldView> {
    let name = (ProjectionView::Approval, key);
    if doc[Field::GrantId].text is None && doc[Field::RequestRevision].number == Some(1u64)
        && !seen.approvals.contains_key(name) {
        Some(
            FoldView {
                approvals: seen.approvals.insert(
                    name,
                    ApprovalFacts { phase: ApprovalPhase::Requested, revision: 1 },
                ),
                ..seen
            },
        )
    } else {
        None
    }
}

/// Whether an approval that was asked for moves to its next revision.
pub open spec fn decides(seen: FoldView, doc: Map<Field, FieldView>, key: Seq<char>) -> bool {
    let name = (ProjectionView::Approval, key);
    &&& seen.approvals.contains_key(name)
    &&& seen.approvals[name].phase == ApprovalPhase::Requested
    &&& doc[Field::RequestRevision].number matches Some(revision)
    &&& revision == seen.approvals[name].revision + 1
}

/// An approval is granted: the grant is new and at its first revision.
pub open spec fn granted_step(
    seen: FoldView,
    doc: Map<Field, FieldView>,
    index: int,
    key: Seq<char>,
) -> Option<FoldView> {
    let name = (ProjectionView::Approval, key);
    match doc[Field::GrantId].text {
        Some(grant) => if decides(seen, doc, key) && doc[Field::GrantRevision].number == Some(1u64)
            && !seen.grants.contains_key((ProjectionView::Approval, grant)) {
            Some(
                FoldView {
                    approvals: seen.approvals.insert(
                        name,
                        ApprovalFacts {
                            phase: ApprovalPhase::Granted,
                            revision: doc[Field::RequestRevision].number->Some_0,
                        },
                    ),
                    grants: seen.grants.insert(
                        (ProjectionView::Approval, grant),
                        GrantFacts { event: index as usize, revision: 1 },
                    ),
                    ..seen
                },
            )
        } else {
            None
        },
        None => None,
    }
}

/// An approval ends without a grant.
pub open spec fn refused_step(
    seen: FoldView,
    doc: Map<Field, FieldView>,
    key: Seq<char>,
    phase: ApprovalPhase,
) -> Option<FoldView> {
    if decides(seen, doc, key) && doc[Field::GrantId].text is None {
        Some(
            FoldView {
                approvals: seen.approvals.insert(
                    (ProjectionView::Approval, key),
                    ApprovalFacts { phase, revision: doc[Field::RequestRevision].number->Some_0 },
                ),
                ..seen
            },
        )
    } else {
        None
    }
}

/// Whether a grant of a granted approval moves to its next revision, and the approval stays at
/// its revision or moves to the next.
pub open spec fn uses_grant(
    seen: FoldView,
    events: Seq<ProjectionEvent>,
    doc: Map<Field, FieldView>,
    key: Seq<char>,
    grant: Seq<char>,
) -> bool {
    let name = (ProjectionView::Approval, key);
    &&& granted_to(seen, events, grant, key)
    &&& seen.approvals.contains_key(name)
    &&& seen.approvals[name].phase == ApprovalPhase::Granted
    &&& doc[Field::GrantRevision].number matches Some(revision)
    &&& revision == seen.grants[(ProjectionView::Approval, grant)].revision + 1
    &&& doc[Field::RequestRevision].number matches Some(request)
    &&& (request == seen.approvals[name].revision || request == seen.approvals[name].revision + 1)
}

/// What has been seen after a grant was used or withdrawn.
pub open spec fn after_use(
    seen: FoldView,
    doc: Map<Field, FieldView>,
    key: Seq<char>,
    grant: Seq<char>,
    phase: ApprovalPhase,
) -> FoldView {
    let held = (ProjectionView::Approval, grant);
    FoldView {
        approvals: seen.approvals.insert(
            (ProjectionView::Approval, key),
            ApprovalFacts { phase, revision: doc[Field::RequestRevision].number->Some_0 },
        ),
        grants: seen.grants.insert(
            held,
            GrantFacts {
                event: seen.grants[held].event,
                revision: doc[Field::GrantRevision].number->Some_0,
            },
        ),
        ..seen
    }
}

/// A grant is withdrawn.
pub open spec fn revoked_step(
    seen: FoldView,
    events: Seq<ProjectionEvent>,
    doc: Map<Field, FieldView>,
    key: Seq<char>,
) -> Option<FoldView> {
    match doc[Field::GrantId].text {
        Some(grant) => if uses_grant(seen, events, doc, key, grant) {
            Some(after_use(seen, doc, key, grant, ApprovalPhase::Revoked))
        } else {
            None
        },
        None => None,
    }
}

/// A grant is used for a new effect at its first revision.
pub open spec fn consumed_step(
    seen: FoldView,
    events: Seq<ProjectionEvent>,
    doc: Map<Field, FieldView>,
    key: Seq<char>,
) -> Option<FoldView> {
    let phase = if doc[Field::Status].text == Some("consumed"@) {
        ApprovalPhase::Consumed
    } else {
        ApprovalPhase::Granted
    };
    match (doc[Field::GrantId].text, doc[Field::EffectId].text) {
        (Some(grant), Some(effect)) => if uses_grant(seen, events, doc, key, grant)
            && doc[Field::EffectRevision].number == Some(1u64) && !seen.effects.contains_key(
            (ProjectionView::Approval, effect),
        ) {
            Some(
                FoldView {
                    effects: seen.effects.insert(
                        (ProjectionView::Approval, effect),
                        EffectFacts { revision: 1, completed: false },
                    ),
                    ..after_use(seen, doc, key, grant, phase)
                },
            )
        } else {
            None
        },
        _ => None,
    }
}

/// Whether an effect may finish at a revision: it has not finished, and it moves to its next
/// revision. An effect that was never begun may only finish at revision zero.
pub open spec fn may_finish(seen: FoldView, effect: Seq<char>, revision: u64) -> bool {
    let name = (ProjectionView::Approval, effect);
    if seen.effects.contains_key(name) {
        !seen.effects[name].completed && revision == seen.effects[name].revision + 1
    } else {
        revision == 0
    }
}

/// An effect of a grant finishes.
pub open spec fn finished_step(
    seen: FoldView,
    events: Seq<ProjectionEvent>,
    doc: Map<Field, FieldView>,
    key: Seq<char>,
) -> Option<FoldView> {
    let name = (ProjectionView::Approval, key);
    match (
        doc[Field::GrantId].text,
        doc[Field::EffectId].text,
        doc[Field::EffectRevision].number,
    ) {
        (Some(grant), Some(effect), Some(revision)) => if doc[Field::RequestRevision].number is Some
            && seen.approvals.contains_key(name) && (seen.approvals[name].phase
            == ApprovalPhase::Granted || seen.approvals[name].phase == ApprovalPhase::Consumed)
            && granted_to(seen, events, grant, key) && may_finish(seen, effect, revision) {
            Some(
                FoldView {
                    effects: seen.effects.insert(
                        (ProjectionView::Approval, effect),
                        EffectFacts { revision, completed: true },
                    ),
                    ..seen
                },
            )
        } else {
            None
        },
        _ => None,
    }
}

/// Moves an approval on.
pub open spec fn approval_step(
    seen: FoldView,
    events: Seq<ProjectionEvent>,
    index: int,
    key: Seq<char>,
) -> Option<FoldView> {
    let doc = doc_of(events, index);
    let kind = events[index].event_type@;
    if kind == "approval.requested"@ {
        requested_step(seen, doc, key)
    } else if kind == "approval.granted"@ {
        granted_step(seen, doc, index, key)
    } else if kind == "approval.denied"@ {
        refused_step(seen, doc, key, ApprovalPhase::Denied)
    } else if kind == "approval.expired"@ {
        refused_step(seen, doc, key, ApprovalPhase::Expired)
    } else if kind == "approval.revoked"@ {
        revoked_step(seen, events, doc, key)
    } else if kind == "approval.consumed"@ {
        consumed_step(seen, events, doc, key)
    } else if kind == "approval.effect.finished"@ {
        finished_step(seen, events, doc, key)
    } else {
        None
    }
}

/// The revision after another, staying at the last one.
pub open spec fn saturating_next(revision: u64) -> int {
    if revision == u64::MAX {
        revision as int
    } else {
        revision + 1
    }
}

/// Moves an item on: it begins at revision one with an initial event, never moves once it has
/// ended, and otherwise moves one revision at a time along the accepted transitions.
pub open spec fn history_step(
    seen: FoldView,
    events: Seq<ProjectionEvent>,
    index: int,
    view: ProjectionView,
    key: Seq<char>,
    terminal: bool,
) -> Option<FoldView> {
    let name = (view, key);
    let kind = events[index].event_type@;
    let revision = events[index].revision as u64;
    let moves = if seen.histories.contains_key(name) {
        let prior = seen.histories[name];
        &&& !prior.terminal
        &&& revision == saturating_next(prior.revision)
        &&& transition_allowed(view, events[prior.event as int].event_type@, kind)
    } else {
        revision == 1 && initial_event(view, kind)
    };
    if moves {
        Some(
            FoldView {
                histories: seen.histories.insert(
                    name,
                    HistoryFacts { event: index as usize, revision, terminal },
                ),
                ..seen
            },
        )
    } else {
        None
    }
}

/// Writes the row of an item; finished work leaves the active work.
pub open spec fn row_step(
    seen: FoldView,
    index: int,
    view: ProjectionView,
    key: Seq<char>,
    terminal: bool,
) -> FoldView {
    FoldView {
        rows: if view == ProjectionView::ActiveWork && terminal {
            seen.rows.remove((view, key))
        } else {
            seen.rows.insert((view, key), RowSource::Event { index: index as usize })
        },
        ..seen
    }
}

/// Applies one target of an event.
pub open spec fn target_step(
    seen: FoldView,
    events: Seq<ProjectionEvent>,
    index: int,
    view: ProjectionView,
    key: Seq<char>,
    terminal: bool,
) -> Option<FoldView> {
    let placed = match view {
        ProjectionView::SessionTree => tree_step(seen, events, index, key),
        ProjectionView::Approval => approval_step(seen, events, index, key),
        _ => Some(seen),
    };
    let moved = match placed {
        Some(placed) => if view == ProjectionView::Approval {
            Some(placed)
        } else {
            history_step(placed, events, index, view, key, terminal)
        },
        None => None,
    };
    match moved {
        Some(moved) => Some(row_step(moved, index, view, key, terminal)),
        None => None,
    }
}

/// What the document of an event is, where its bytes hold one.
pub open spec fn doc_at(events: Seq<ProjectionEvent>, index: int) -> Option<
    Map<Field, FieldView>,
> {
    if json_is_document(events[index].data@) {
        Some(doc_of(events, index))
    } else {
        None
    }
}

/// Applies one event: positions follow each other without a gap, the schema is known, and every
/// target applies.
pub open spec fn event_step(
    session_id: SessionId,
    seen: FoldView,
    events: Seq<ProjectionEvent>,
    index: int,
) -> Option<FoldView> {
    let event = events[index];
    if event.position != index + 1 || event.schema_version != 1 || event.revision < 0 {
        None
    } else {
        match event_target(
            session_id,
            event.revision as u64,
            event.event_type@,
            doc_at(events, index),
        ) {
            Ok(Some(target)) => match target_step(
                seen,
                events,
                index,
                target.view,
                target.key,
                target.terminal,
            ) {
                Some(applied) => match target.failure_key {
                    Some(failure) => target_step(
                        applied,
                        events,
                        index,
                        ProjectionView::Failure,
                        failure,
                        target.terminal,
                    ),
                    None => Some(applied),
                },
                None => None,
            },
            Ok(None) => Some(seen),
            Err(_) => None,
        }
    }
}

/// What has been seen after the first `count` events; nothing where one of them does not apply.
pub open spec fn seen_after(
    session_id: SessionId,
    events: Seq<ProjectionEvent>,
    count: nat,
) -> Option<FoldView>
    decreases count,
{
    if count == 0 {
        Some(nothing_seen())
    } else {
        match seen_after(session_id, events, (count - 1) as nat) {
            Some(seen) => event_step(session_id, seen, events, count - 1),
            None => None,
        }
    }
}

/// Whether the documents are those of the events.
pub open spec fn documents_of(
    docs: Seq<Option<EventFields>>,
    events: Seq<ProjectionEvent>,
) -> bool {
    &&& docs.len() == events.len()
    &&& forall|i: int|
        0 <= i < docs.len() ==> match #[trigger] docs[i] {
            Some(doc) => json_is_document(events[i].data@) && doc.wf() && doc@ == doc_of(
                events,
                i,
            ),
            None => !json_is_document(events[i].data@),
        }
}

struct Fold {
    tree: Table<usize>,
    rooted: bool,
    approvals: Table<ApprovalFacts>,
    grants: Table<GrantFacts>,
    effects: Table<EffectFacts>,
    histories: Table<HistoryFacts>,
    rows: Table<RowSource>,
}

spec fn has_document(events: Seq<ProjectionEvent>, index: usize) -> bool {
    index < events.len() && json_is_document(events[index as int].data@)
}

impl Fold {
    spec fn seen(&self) -> FoldView {
        FoldView {
            tree: self.tree@,
            approvals: self.approvals@,
            grants: self.grants@,
            effects: self.effects@,
            histories: self.histories@,
            rows: self.rows@,
        }
    }

    spec fn wf(&self, events: Seq<ProjectionEvent>) -> bool {
        &&& self.tree.wf()
        &&& self.approvals.wf()
        &&& self.grants.wf()
        &&& self.effects.wf()
        &&& self.histories.wf()
        &&& self.rows.wf()
        &&& self.rooted == rooted(self.tree@, events)
        &&& forall|name: (ProjectionView, Seq<char>)| #[trigger]
            self.tree@.contains_key(name) ==> has_document(events, self.tree@[name])
        &&& forall|name: (ProjectionView, Seq<char>)| #[trigger]
            self.grants@.contains_key(name) ==> has_document(events, self.grants@[name].event)
        &&& forall|name: (ProjectionView, Seq<char>)| #[trigger]
            self.histories@.contains_key(name) ==> self.histories@[name].event < events.len()
    }

    fn place(
        &mut self,
        events: &Vec<ProjectionEvent>,
        docs: &Vec<Option<EventFields>>,
        index: usize,
        key: &str,
    ) -> (result: Result<(), StoreError>)
        requires
            old(self).wf(events@),
            documents_of(docs@, events@),
            has_document(events@, index),
        ensures
            result is Ok ==> final(self).wf(events@),
            match result {
                Ok(_) => tree_step(old(self).seen(), events@, index as int, key@) == Some(
                    final(self).seen(),
                ),
                Err(error) => error == StoreError::Corrupt && tree_step(
                    old(self).seen(),
                    events@,
                    index as int,
                    key@,
                ) is None,
            },
    {
        let doc: &EventFields = match &docs[index] {
            Some(doc) => doc,
            None => {
                return Err(StoreError::Corrupt);
            },
        };
        let parent: Option<&String> = doc.text(Field::ParentParticipantId);
        let depth: Option<u64> = doc.number(Field::Depth);
        match self.tree.get(ProjectionView::SessionTree, key) {
            Some(at) => {
                assert(has_document(events@, self.tree@[(ProjectionView::SessionTree, key@)]));
                let prior: &EventFields = match &docs[at] {
                    Some(prior) => prior,
                    None => {
                        return Err(StoreError::Corrupt);
                    },
                };
                let parent_moved: bool = match parent {
                    Some(parent) => !prior.text_is(Field::ParentParticipantId, parent.as_str()),
                    None => false,
                };
                let depth_moved: bool = depth.is_some() && depth != prior.number(Field::Depth);
                if parent_moved || depth_moved {
                    return Err(StoreError::Corrupt);
                }
                Ok(())
            },
            None => {
                let placed: bool = match (depth, parent) {
                    (Some(depth), None) => depth == 1 && !self.rooted,
                    (Some(depth), Some(parent)) => match self.tree.get(
                        ProjectionView::SessionTree,
                        parent.as_str(),
                    ) {
                        Some(at) => {
                            assert(has_document(
                                events@,
                                self.tree@[(ProjectionView::SessionTree, parent@)],
                            ));
                            match &docs[at] {
                                Some(above) => match above.number(Field::Depth) {
                                    Some(parent_depth) => parent_depth < u64::MAX && depth
                                        == parent_depth + 1,
                                    None => false,
                                },
                                None => false,
                            }
                        },
                        None => false,
                    },
                    _ => false,
                };
                if !placed {
                    return Err(StoreError::Corrupt);
                }
                let is_root: bool = parent.is_none();
                let ghost before = self.tree@;
                let ghost name = (ProjectionView::SessionTree, key@);
                self.tree.insert(ProjectionView::SessionTree, key, index);
                self.rooted = self.rooted || is_root;
                proof {
                    assert(self.tree@ == before.insert(name, index));
                    assert(self.tree@.contains_key(name));
                    if rooted(before, events@) {
                        let other = choose|other: (ProjectionView, Seq<char>)| #[trigger]
                            before.contains_key(other) && doc_of(
                                events@,
                                before[other] as int,
                            )[Field::ParentParticipantId].text is None;
                        assert(other != name);
                        assert(self.tree@.contains_key(other));
                    }
                    if rooted(self.tree@, events@) && !is_root {
                        let other = choose|other: (ProjectionView, Seq<char>)| #[trigger]
                            self.tree@.contains_key(other) && doc_of(
                                events@,
                                self.tree@[other] as int,
                            )[Field::ParentParticipantId].text is None;
                        assert(other != name);
                        assert(before.contains_key(other));
                    }
                }
                Ok(())
            },
        }
    }

    fn held_by(
        &self,
        events: &Vec<ProjectionEvent>,
        docs: &Vec<Option<EventFields>>,
        grant: &str,
        approval: &str,
    ) -> (facts: Option<GrantFacts>)
        requires
            self.wf(events@),
            documents_of(docs@, events@),
        ensures
            facts == (if granted_to(self.seen(), events@, grant@, approval@) {
                Some(self.grants@[(ProjectionView::Approval, grant@)])
            } else {
                None
            }),
    {
        match self.grants.get(ProjectionView::Approval, grant) {
            Some(facts) => {
                assert(has_document(
                    events@,
                    self.grants@[(ProjectionView::Approval, grant@)].event,
                ));
                match &docs[facts.event] {
                    Some(giving) => if giving.text_is(Field::ApprovalId, approval) {
                        Some(facts)
                    } else {
                        None
                    },
                    None => None,
                }
            },
            None => None,
        }
    }

    fn decided(&self, doc: &EventFields, key: &str) -> (revision: Option<u64>)
        requires
            self.approvals.wf(),
            doc.wf(),
        ensures
            revision is Some <==> decides(self.seen(), doc@, key@),
            revision is Some ==> revision == doc@[Field::RequestRevision].number,
    {
        match (
            self.approvals.get(ProjectionView::Approval, key),
            doc.number(Field::RequestRevision),
        ) {
            (Some(facts), Some(revision)) => if facts.phase == ApprovalPhase::Requested
                && facts.revision < u64::MAX && revision == facts.revision + 1 {
                Some(revision)
            } else {
                None
            },
            _ => None,
        }
    }

    fn usable(
        &self,
        events: &Vec<ProjectionEvent>,
        docs: &Vec<Option<EventFields>>,
        doc: &EventFields,
        key: &str,
        grant: &str,
    ) -> (moved: Option<(GrantFacts, u64)>)
        requires
            self.wf(events@),
            documents_of(docs@, events@),
            doc.wf(),
        ensures
            moved is Some <==> uses_grant(self.seen(), events@, doc@, key@, grant@),
            moved matches Some((facts, request)) ==> {
                &&& facts.event == self.grants@[(ProjectionView::Approval, grant@)].event
                &&& doc@[Field::GrantRevision].number == Some(facts.revision)
                &&& doc@[Field::RequestRevision].number == Some(request)
            },
    {
        match (
            self.held_by(events, docs, grant, key),
            self.approvals.get(ProjectionView::Approval, key),
            doc.number(Field::GrantRevision),
            doc.number(Field::RequestRevision),
        ) {
            (Some(held), Some(facts), Some(revision), Some(request)) => {
                let next_grant: bool = held.revision < u64::MAX && revision == held.revision + 1;
                let same_or_next: bool = request == facts.revision || (facts.revision < u64::MAX
                    && request == facts.revision + 1);
                if facts.phase == ApprovalPhase::Granted && next_grant && same_or_next {
                    Some((GrantFacts { event: held.event, revision }, request))
                } else {
                    None
                }
            },
            _ => None,
        }
    }

    fn use_grant(
        &mut self,
        events: &Vec<ProjectionEvent>,
        key: &str,
        grant: &str,
        facts: GrantFacts,
        request: u64,
        phase: ApprovalPhase,
    )
        requires
            old(self).wf(events@),
            has_document(events@, facts.event),
        ensures
            final(self).wf(events@),
            final(self).seen() == (FoldView {
                approvals: old(self).approvals@.insert(
                    (ProjectionView::Approval, key@),
                    ApprovalFacts { phase, revision: request },
                ),
                grants: old(self).grants@.insert((ProjectionView::Approval, grant@), facts),
                ..old(self).seen()
            }),
    {
        self.approvals.insert(
            ProjectionView::Approval,
            key,
            ApprovalFacts { phase, revision: request },
        );
        self.grants.insert(ProjectionView::Approval, grant, facts);
    }

    fn approve(
        &mut self,
        events: &Vec<ProjectionEvent>,
        docs: &Vec<Option<EventFields>>,
        index: usize,
        key: &str,
    ) -> (result: Result<(), StoreError>)
        requires
            old(self).wf(events@),
            documents_of(docs@, events@),
            has_document(events@, index),
        ensures
            result is Ok ==> final(self).wf(events@),
            match result {
                Ok(_) => approval_step(old(self).seen(), events@, index as int, key@) == Some(
                    final(self).seen(),
                ),
                Err(error) => error == StoreError::Corrupt && approval_step(
                    old(self).seen(),
                    events@,
                    index as int,
                    key@,
                ) is None,
            },
    {
        let doc: &EventFields = match &docs[index] {
            Some(doc) => doc,
            None => {
                return Err(StoreError::Corrupt);
            },
        };
        let kind: &str = events[index].event_type.as_str();
        let grant: Option<&String> = doc.text(Field::GrantId);
        if same_text(kind, "approval.requested") {
            if grant.is_some() || doc.number(Field::RequestRevision) != Some(1u64)
                || self.approvals.get(ProjectionView::Approval, key).is_some() {
                return Err(StoreError::Corrupt);
            }
            self.approvals.insert(
                ProjectionView::Approval,
                key,
                ApprovalFacts { phase: ApprovalPhase::Requested, revision: 1 },
            );
            Ok(())
        } else if same_text(kind, "approval.granted") {
            match (grant, self.decided(doc, key)) {
                (Some(grant), Some(request)) => {
                    if doc.number(Field::GrantRevision) != Some(1u64) || self.grants.get(
                        ProjectionView::Approval,
                        grant.as_str(),
                    ).is_some() {
                        return Err(StoreError::Corrupt);
                    }
                    self.use_grant(
                        events,
                        key,
                        grant.as_str(),
                        GrantFacts { event: index, revision: 1 },
                        request,
                        ApprovalPhase::Granted,
                    );
                    Ok(())
                },
                _ => Err(StoreError::Corrupt),
            }
        } else if same_text(kind, "approval.denied") || same_text(kind, "approval.expired") {
            let phase: ApprovalPhase = if same_text(kind, "approval.denied") {
                ApprovalPhase::Denied
            } else {
                ApprovalPhase::Expired
            };
            match (grant, self.decided(doc, key)) {
                (None, Some(revision)) => {
                    self.approvals.insert(
                        ProjectionView::Approval,
                        key,
                        ApprovalFacts { phase, revision },
                    );
                    Ok(())
                },
                _ => Err(StoreError::Corrupt),
            }
        } else if same_text(kind, "approval.revoked") {
            match grant {
                Some(grant) => match self.usable(events, docs, doc, key, grant.as_str()) {
                    Some((facts, request)) => {
                        self.use_grant(
                            events,
                            key,
                            grant.as_str(),
                            facts,
                            request,
                            ApprovalPhase::Revoked,
                        );
                        Ok(())
                    },
                    None => Err(StoreError::Corrupt),
                },
                None => Err(StoreError::Corrupt),
            }
        } else if same_text(kind, "approval.consumed") {
            let phase: ApprovalPhase = if doc.text_is(Field::Status, "consumed") {
                ApprovalPhase::Consumed
            } else {
                ApprovalPhase::Granted
            };
            match (grant, doc.text(Field::EffectId)) {
                (Some(grant), Some(effect)) => match self.usable(
                    events,
                    docs,
                    doc,
                    key,
                    grant.as_str(),
                ) {
                    Some((facts, request)) => {
                        if doc.number(Field::EffectRevision) != Some(1u64) || self.effects.get(
                            ProjectionView::Approval,
                            effect.as_str(),
                        ).is_some() {
                            return Err(StoreError::Corrupt);
                        }
                        self.use_grant(events, key, grant.as_str(), facts, request, phase);
                        self.effects.insert(
                            ProjectionView::Approval,
                            effect.as_str(),
                            EffectFacts { revision: 1, completed: false },
                        );
                        Ok(())
                    },
                    None => Err(StoreError::Corrupt),
                },
                _ => Err(StoreError::Corrupt),
            }
        } else if same_text(kind, "approval.effect.finished") {
            match (grant, doc.text(Field::EffectId), doc.number(Field::EffectRevision)) {
                (Some(grant), Some(effect), Some(revision)) => {
                    let standing: bool = match self.approvals.get(ProjectionView::Approval, key) {
                        Some(facts) => facts.phase == ApprovalPhase::Granted || facts.phase
                            == ApprovalPhase::Consumed,
                        None => false,
                    };
                    let next: bool = match self.effects.get(
                        ProjectionView::Approval,
                        effect.as_str(),
                    ) {
                        Some(facts) => !facts.completed && facts.revision < u64::MAX && revision
                            == facts.revision + 1,
                        None => revision == 0,
                    };
                    if doc.number(Field::RequestRevision).is_none() || !standing || self.held_by(
                        events,
                        docs,
                        grant.as_str(),
                        key,
                    ).is_none() || !next {
                        return Err(StoreError::Corrupt);
                    }
                    self.effects.insert(
                        ProjectionView::Approval,
                        effect.as_str(),
                        EffectFacts { revision, completed: true },
                    );
                    Ok(())
                },
                _ => Err(StoreError::Corrupt),
            }
        } else {
            Err(StoreError::Corrupt)
        }
    }

    fn advance(
        &mut self,
        events: &Vec<ProjectionEvent>,
        index: usize,
        view: ProjectionView,
        key: &str,
        terminal: bool,
    ) -> (result: Result<(), StoreError>)
        requires
            old(self).wf(events@),
            index < events.len(),
            events[index as int].revision >= 0,
        ensures
            result is Ok ==> final(self).wf(events@),
            match result {
                Ok(_) => history_step(
                    old(self).seen(),
                    events@,
                    index as int,
                    view,
                    key@,
                    terminal,
                ) == Some(final(self).seen()),
                Err(error) => error == StoreError::Corrupt && history_step(
                    old(self).seen(),
                    events@,
                    index as int,
                    view,
                    key@,
                    terminal,
                ) is None,
            },
    {
        let kind: &str = events[index].event_type.as_str();
        let revision: u64 = events[index].revision as u64;
        let moves: bool = match self.histories.get(view, key) {
            Some(prior) => {
                assert(self.histories@[(view, key@)].event < events.len());
                !prior.terminal && revision == prior.revision.saturating_add(1)
                    && projection_transition_allowed(
                    view,
                    events[prior.event].event_type.as_str(),
                    kind,
                )
            },
            None => revision == 1 && projection_initial_event(view, kind),
        };
        if !moves {
            return Err(StoreError::Corrupt);
        }
        self.histories.insert(view, key, HistoryFacts { event: index, revision, terminal });
        Ok(())
    }

    fn apply(
        &mut self,
        events: &Vec<ProjectionEvent>,
        docs: &Vec<Option<EventFields>>,
        index: usize,
        view: ProjectionView,
        key: &str,
        terminal: bool,
    ) -> (result: Result<(), StoreError>)
        requires
            old(self).wf(events@),
            documents_of(docs@, events@),
            has_document(events@, index),
            events[index as int].revision >= 0,
        ensures
            result is Ok ==> final(self).wf(events@),
            match result {
                Ok(_) => target_step(
                    old(self).seen(),
                    events@,
                    index as int,
                    view,
                    key@,
                    terminal,
                ) == Some(final(self).seen()),
                Err(error) => error == StoreError::Corrupt && target_step(
                    old(self).seen(),
                    events@,
                    index as int,
                    view,
                    key@,
                    terminal,
                ) is None,
            },
    {
        match view {
            ProjectionView::SessionTree => match self.place(events, docs, index, key) {
                Ok(_) => {},
                Err(error) => {
                    return Err(error);
                },
            },
            ProjectionView::Approval => match self.approve(events, docs, index, key) {
                Ok(_) => {},
                Err(error) => {
                    return Err(error);
                },
            },
            _ => {},
        }
        if view != ProjectionView::Approval {
            match self.advance(events, index, view, key, terminal) {
                Ok(_) => {},
                Err(error) => {
                    return Err(error);
                },
            }
        }
        if view == ProjectionView::ActiveWork && terminal {
            self.rows.remove(view, key);
        } else {
            self.rows.insert(view, key, RowSource::Event { index });
        }
        Ok(())
    }

    fn take_in(
        &mut self,
        session_id: SessionId,
        events: &Vec<ProjectionEvent>,
        docs: &Vec<Option<EventFields>>,
        index: usize,
    ) -> (result: Result<(), StoreError>)
        requires
            old(self).wf(events@),
            documents_of(docs@, events@),
            index < events.len(),
        ensures
            result is Ok ==> final(self).wf(events@),
            match result {
                Ok(_) => event_step(session_id, old(self).seen(), events@, index as int) == Some(
                    final(self).seen(),
                ),
                Err(error) => error == StoreError::Corrupt && event_step(
                    session_id,
                    old(self).seen(),
                    events@,
                    index as int,
                ) is None,
            },
    {
        let position: i64 = events[index].position;
        let at: u64 = index as u64;
        if position < 1 || position as u64 - 1 != at || events[index].schema_version != 1
            || events[index].revision < 0 {
            return Err(StoreError::Corrupt);
        }
        let doc: Option<&EventFields> = match &docs[index] {
            Some(doc) => Some(doc),
            None => None,
        };
        let target: Option<EventTarget> = match projection_event_targets(
            session_id,
            events[index].revision as u64,
            events[index].event_type.as_str(),
            doc,
        ) {
            Ok(target) => target,
            Err(error) => {
                return Err(error);
            },
        };
        match target {
            None => Ok(()),
            Some(target) => {
                match self.apply(
                    events,
                    docs,
                    index,
                    target.view,
                    target.key.as_str(),
                    target.terminal,
                ) {
                    Ok(_) => {},
                    Err(error) => {
                        return Err(error);
                    },
                }
                match &target.failure_key {
                    Some(failure) => self.apply(
                        events,
                        docs,
                        index,
                        ProjectionView::Failure,
                        failure.as_str(),
                        target.terminal,
                    ),
                    None => Ok(()),
                }
            },
        }
    }
}

/// The rebuilt read models of a session.
pub struct RebuiltProjection {
    /// The rows, each with the source of its sort key and its contents.
    pub rows: Table<RowSource>,
    /// How many participants the session tree has.
    pub participants: usize,
    /// How many operations are active.
    pub active_work: usize,
    /// How many messages the delivery view has.
    pub deliveries: usize,
    /// The position of the last event, or zero.
    pub checkpoint: u64,
}

/// Rebuilds the read models of a session from all of its events.
///
/// The result holds the rows after the last event and the capacity row. It is an error if any
/// event is out of place or does not apply.
pub fn rebuild_projection(session_id: SessionId, events: &Vec<ProjectionEvent>) -> (result: Result<
    RebuiltProjection,
    StoreError,
>)
    ensures
        match result {
            Ok(rebuilt) => {
                &&& seen_after(session_id, events@, events.len() as nat) matches Some(seen)
                &&& rebuilt.rows.wf()
                &&& rebuilt.rows@ == seen.rows.insert(
                    (ProjectionView::Capacity, "session"@),
                    RowSource::CapacityMetrics,
                )
                &&& rebuilt.participants == keys_of(seen.rows, ProjectionView::SessionTree).len()
                &&& rebuilt.active_work == keys_of(seen.rows, ProjectionView::ActiveWork).len()
                &&& rebuilt.deliveries == keys_of(seen.rows, ProjectionView::Delivery).len()
                &&& rebuilt.checkpoint == events.len()
            },
            Err(error) => error == StoreError::Corrupt && seen_after(
                session_id,
                events@,
                events.len() as nat,
            ) is None,
        },
{
    let mut docs: Vec<Option<EventFields>> = Vec::new();
    let mut read: usize = 0;
    while read < events.len()
        invariant
            read <= events.len(),
            docs.len() == read,
            forall|i: int|
                0 <= i < docs.len() ==> match #[trigger] docs[i] {
                    Some(doc) => json_is_document(events[i].data@) && doc.wf() && doc@ == doc_of(
                        events@,
                        i,
                    ),
                    None => !json_is_document(events[i].data@),
                },
        decreases events.len() - read,
    {
        docs.push(read_document(&events[read].data));
        read = read + 1;
    }
    let mut fold = Fold {
        tree: Table::new(),
        rooted: false,
        approvals: Table::new(),
        grants: Table::new(),
        effects: Table::new(),
        histories: Table::new(),
        rows: Table::new(),
    };
    let mut index: usize = 0;
    while index < events.len()
        invariant
            index <= events.len(),
            documents_of(docs@, events@),
            fold.wf(events@),
            seen_after(session_id, events@, index as nat) == Some(fold.seen()),
        decreases events.len() - index,
    {
        match fold.take_in(session_id, events, &docs, index) {
            Ok(_) => {},
            Err(error) => {
                proof {
                    corruption_is_permanent(session_id, events@, (index + 1) as nat, events.len() as nat);
                }
                return Err(error);
            },
        }
        index = index + 1;
    }
    let participants: usize = fold.rows.count(ProjectionView::SessionTree);
    let active_work: usize = fold.rows.count(ProjectionView::ActiveWork);
    let deliveries: usize = fold.rows.count(ProjectionView::Delivery);
    let mut rows = fold.rows;
    rows.insert(ProjectionView::Capacity, "session", RowSource::CapacityMetrics);
    Ok(
        RebuiltProjection {
            rows,
            participants,
            active_work,
            deliveries,
            checkpoint: events.len() as u64,
        },
    )
}

/// An event that does not apply spoils the projection for good: no later event mends it.
pub proof fn corruption_is_permanent(
    session_id: SessionId,
    events: Seq<ProjectionEvent>,
    failed: nat,
    count: nat,
)
    requires
        failed <= count,
        seen_after(session_id, events, failed) is None,
    ensures
        seen_after(session_id, events, count) is None,
    decreases count,
{
    if failed < count {
        corruption_is_permanent(session_id, events, failed, (count - 1) as nat);
    }
}

/// Where every read model stands on its latest event, and active work has not ended.
pub open spec fn rows_are_live(seen: FoldView) -> bool {
    forall|key: Seq<char>| #[trigger]
        seen.rows.contains_key((ProjectionView::ActiveWork, key)) ==> {
            &&& seen.histories.contains_key((ProjectionView::ActiveWork, key))
            &&& !seen.histories[(ProjectionView::ActiveWork, key)].terminal
        }
}

proof fn lemma_target_keeps_rows_live(
    seen: FoldView,
    events: Seq<ProjectionEvent>,
    index: int,
    view: ProjectionView,
    key: Seq<char>,
    terminal: bool,
)
    requires
        rows_are_live(seen),
        target_step(seen, events, index, view, key, terminal) is Some,
    ensures
        rows_are_live(target_step(seen, events, index, view, key, terminal)->Some_0),
{
    let after = target_step(seen, events, index, view, key, terminal)->Some_0;
    assert forall|other: Seq<char>| #[trigger]
        after.rows.contains_key((ProjectionView::ActiveWork, other)) implies ({
        &&& after.histories.contains_key((ProjectionView::ActiveWork, other))
        &&& !after.histories[(ProjectionView::ActiveWork, other)].terminal
    }) by {
        if view == ProjectionView::ActiveWork && other == key {
        } else {
            assert(seen.rows.contains_key((ProjectionView::ActiveWork, other)));
        }
    }
}

/// The active work view never lists an operation that has ended.
pub proof fn active_work_has_not_ended(
    session_id: SessionId,
    events: Seq<ProjectionEvent>,
    count: nat,
)
    requires
        seen_after(session_id, events, count) is Some,
    ensures
        rows_are_live(seen_after(session_id, events, count)->Some_0),
    decreases count,
{
    if count > 0 {
        active_work_has_not_ended(session_id, events, (count - 1) as nat);
        let seen = seen_after(session_id, events, (count - 1) as nat)->Some_0;
        let event = events[count - 1];
        match event_target(
            session_id,
            event.revision as u64,
            event.event_type@,
            doc_at(events, count - 1),
        ) {
            Ok(Some(target)) => {
                lemma_target_keeps_rows_live(
                    seen,
                    events,
                    count - 1,
                    target.view,
                    target.key,
                    target.terminal,
                );
                if let Some(failure) = target.failure_key {
                    let applied = target_step(
                        seen,
                        events,
                        count - 1,
                        target.view,
                        target.key,
                        target.terminal,
                    )->Some_0;
                    lemma_target_keeps_rows_live(
                        applied,
                        events,
                        count - 1,
                        ProjectionView::Failure,
                        failure,
                        target.terminal,
                    );
                }
            },
            _ => {},
        }
    }
}

/// Once an item outside the approval view has ended, no further event of it applies.
pub proof fn ended_items_stay_ended(
    seen: FoldView,
    events: Seq<ProjectionEvent>,
    index: int,
    view: ProjectionView,
    key: Seq<char>,
    terminal: bool,
)
    requires
        view != ProjectionView::Approval,
        seen.histories.contains_key((view, key)),
        seen.histories[(view, key)].terminal,
    ensures
        target_step(seen, events, index, view, key, terminal) is None,
{
}

/// A published projection, as far as a rebuild reports it.
#[derive(Clone, Copy, PartialEq, Eq, Debug, Structural)]
pub struct ProjectionRebuild {
    pub session_id: SessionId,
    pub generation: u64,
    pub checkpoint_position: Option<u64>,
}

/// The position of a checkpoint: none before the first event.
pub open spec fn checkpoint_position(checkpoint: u64) -> Option<u64> {
    if checkpoint == 0 {
        None
    } else {
        Some(checkpoint)
    }
}

/// The position of a checkpoint.
pub fn position_of(checkpoint: u64) -> (position: Option<u64>)
    ensures
        position == checkpoint_position(checkpoint),
{
    if checkpoint == 0 {
        None
    } else {
        Some(checkpoint)
    }
}

/// The published generation, where it already stands on the last event.
///
/// `current` is the published generation with its checkpoint.
pub fn unchanged_projection(
    session_id: SessionId,
    current: Option<(i64, i64)>,
    source_head: i64,
) -> (result: Result<Option<ProjectionRebuild>, StoreError>)
    ensures
        match current {
            Some((generation, checkpoint)) => if checkpoint != source_head {
                result == Ok::<Option<ProjectionRebuild>, StoreError>(None)
            } else if generation < 0 || checkpoint < 0 {
                result == Err::<Option<ProjectionRebuild>, StoreError>(StoreError::Corrupt)
            } else {
                result == Ok::<Option<ProjectionRebuild>, StoreError>(
                    Some(
                        ProjectionRebuild {
                            session_id,
                            generation: generation as u64,
                            checkpoint_position: checkpoint_position(checkpoint as u64),
                        },
                    ),
                )
            },
            None => result == Ok::<Option<ProjectionRebuild>, StoreError>(None),
        },
{
    match current {
        Some((generation, checkpoint)) => {
            if checkpoint != source_head {
                return Ok(None);
            }
            match (to_u64(generation), to_u64(checkpoint)) {
                (Ok(generation), Ok(checkpoint)) => Ok(
                    Some(
                        ProjectionRebuild {
                            session_id,
                            generation,
                            checkpoint_position: position_of(checkpoint),
                        },
                    ),
                ),
                _ => Err(StoreError::Corrupt),
            }
        },
        None => Ok(None),
    }
}

/// The second up to which retired generations may be dropped.
pub fn projection_gc_before(now_seconds: i64) -> (result: Result<i64, StoreError>)
    ensures
        now_seconds - PROJECTION_GRACE_SECONDS >= i64::MIN ==> result == Ok::<i64, StoreError>(
            (now_seconds - PROJECTION_GRACE_SECONDS) as i64,
        ),
        now_seconds - PROJECTION_GRACE_SECONDS < i64::MIN ==> result == Err::<i64, StoreError>(
            StoreError::Corrupt,
        ),
{
    match now_seconds.checked_sub(PROJECTION_GRACE_SECONDS) {
        Some(before) => Ok(before),
        None => Err(StoreError::Corrupt),
    }
}

} // verus!
