//! Journals and the views that are rebuilt from them.

use crate::error::StoreError;
use crate::ids::SessionId;
use crate::laws::projections::{lemma_families, lemma_words};
use crate::projection::event::{event_target, json_is_document, json_number, json_text, Field};
use crate::projection::fold::{
    active_work_has_not_ended, corruption_is_permanent, doc_at, doc_of, event_step,
    projection_gc_before, rebuild_projection, seen_after, target_step, unchanged_projection,
    ApprovalPhase, FoldView, ProjectionEvent, ProjectionRebuild, RebuiltProjection, RowSource,
};
use crate::projection::table::keys_of;
use crate::projection::ProjectionView;
use vstd::prelude::*;

verus! {

/// The event tells that an operation succeeded, failed or was cancelled.
pub open spec fn tells_an_end(event: ProjectionEvent) -> bool {
    event.event_type@ == "operation.succeeded"@ || event.event_type@ == "operation.failed"@
        || event.event_type@ == "operation.cancelled"@
}

/// The event tells of an operation that goes on, or whose end is open.
pub open spec fn tells_work(event: ProjectionEvent) -> bool {
    event.event_type@ == "operation.queued"@ || event.event_type@ == "operation.starting"@
        || event.event_type@ == "operation.running"@ || event.event_type@ == "operation.waiting"@
        || event.event_type@ == "operation.cancelling"@ || event.event_type@
        == "operation.blocked"@ || event.event_type@ == "operation.uncertain"@
}

/// The event is about the operation with this identity.
pub open spec fn about_operation(event: ProjectionEvent, id: Seq<char>) -> bool {
    "operation."@.is_prefix_of(event.event_type@) && json_text(event.data@, "operation_id"@)
        == Some(id)
}

/// The event is about the message with this identity.
pub open spec fn about_message(event: ProjectionEvent, id: Seq<char>) -> bool {
    "message."@.is_prefix_of(event.event_type@) && json_text(event.data@, "message_id"@) == Some(id)
}

/// The event is about the approval with this identity.
pub open spec fn about_approval(event: ProjectionEvent, id: Seq<char>) -> bool {
    "approval."@.is_prefix_of(event.event_type@) && json_text(event.data@, "approval_id"@)
        == Some(id)
}

/// The event is about the participant with this identity.
pub open spec fn about_participant(event: ProjectionEvent, id: Seq<char>) -> bool {
    event.event_type@ == "participant.created"@ && json_text(event.data@, "participant_id"@)
        == Some(id)
}

proof fn lemma_state_of(kind: Seq<char>, state: Seq<char>)
    requires
        kind == "operation."@ + state,
    ensures
        kind == "operation.succeeded"@ ==> state == "succeeded"@,
        kind == "operation.failed"@ ==> state == "failed"@,
        kind == "operation.cancelled"@ ==> state == "cancelled"@,
        kind == "operation.queued"@ ==> state == "queued"@,
        kind == "operation.starting"@ ==> state == "starting"@,
        kind == "operation.running"@ ==> state == "running"@,
        kind == "operation.waiting"@ ==> state == "waiting"@,
        kind == "operation.cancelling"@ ==> state == "cancelling"@,
        kind == "operation.blocked"@ ==> state == "blocked"@,
        kind == "operation.uncertain"@ ==> state == "uncertain"@,
{
    reveal_strlit("operation.");
    reveal_strlit("operation.succeeded");
    reveal_strlit("succeeded");
    reveal_strlit("operation.failed");
    reveal_strlit("failed");
    reveal_strlit("operation.cancelled");
    reveal_strlit("cancelled");
    reveal_strlit("operation.queued");
    reveal_strlit("queued");
    reveal_strlit("operation.starting");
    reveal_strlit("starting");
    reveal_strlit("operation.running");
    reveal_strlit("running");
    reveal_strlit("operation.waiting");
    reveal_strlit("waiting");
    reveal_strlit("operation.cancelling");
    reveal_strlit("cancelling");
    reveal_strlit("operation.blocked");
    reveal_strlit("blocked");
    reveal_strlit("operation.uncertain");
    reveal_strlit("uncertain");
    assert(state =~= kind.subrange(10, kind.len() as int));
    if kind == "operation.succeeded"@ {
        assert(state =~= "succeeded"@);
    } else if kind == "operation.failed"@ {
        assert(state =~= "failed"@);
    } else if kind == "operation.cancelled"@ {
        assert(state =~= "cancelled"@);
    } else if kind == "operation.queued"@ {
        assert(state =~= "queued"@);
    } else if kind == "operation.starting"@ {
        assert(state =~= "starting"@);
    } else if kind == "operation.running"@ {
        assert(state =~= "running"@);
    } else if kind == "operation.waiting"@ {
        assert(state =~= "waiting"@);
    } else if kind == "operation.cancelling"@ {
        assert(state =~= "cancelling"@);
    } else if kind == "operation.blocked"@ {
        assert(state =~= "blocked"@);
    } else if kind == "operation.uncertain"@ {
        assert(state =~= "uncertain"@);
    }
}

proof fn lemma_operation_prefix(event: ProjectionEvent)
    requires
        tells_an_end(event) || tells_work(event),
    ensures
        "operation."@.is_prefix_of(event.event_type@),
        tells_an_end(event) ==> !tells_work(event),
{
    reveal_strlit("operation.");
    reveal_strlit("operation.succeeded");
    reveal_strlit("operation.failed");
    reveal_strlit("operation.cancelled");
    reveal_strlit("operation.queued");
    reveal_strlit("operation.starting");
    reveal_strlit("operation.running");
    reveal_strlit("operation.waiting");
    reveal_strlit("operation.cancelling");
    reveal_strlit("operation.blocked");
    reveal_strlit("operation.uncertain");
    let kind = event.event_type@;
    assert(kind.subrange(0, 10) =~= "operation."@);
    assert("operation.succeeded"@[10] == 's' && "operation.cancelled"@[10] == 'c'
        && "operation.uncertain"@[10] == 'u' && "operation.failed"@[10] == 'f'
        && "operation.queued"@[10] == 'q');
}

proof fn lemma_earlier(session_id: SessionId, events: Seq<ProjectionEvent>, index: nat, count: nat)
    requires
        index < count,
        seen_after(session_id, events, count) is Some,
    ensures
        seen_after(session_id, events, index) is Some,
        event_step(
            session_id,
            seen_after(session_id, events, index)->Some_0,
            events,
            index as int,
        ) == seen_after(session_id, events, (index + 1) as nat),
        seen_after(session_id, events, (index + 1) as nat) is Some,
{
    if seen_after(session_id, events, index) is None {
        corruption_is_permanent(session_id, events, index, count);
    }
    if seen_after(session_id, events, (index + 1) as nat) is None {
        corruption_is_permanent(session_id, events, (index + 1) as nat, count);
    }
}

proof fn lemma_operation_event(
    session_id: SessionId,
    seen: FoldView,
    events: Seq<ProjectionEvent>,
    index: int,
    id: Seq<char>,
)
    requires
        about_operation(events[index], id),
        tells_an_end(events[index]) || tells_work(events[index]),
    ensures
        event_step(session_id, seen, events, index) matches Some(after) ==> {
            let name = (ProjectionView::ActiveWork, id);
            &&& after.histories.contains_key(name)
            &&& after.histories[name].terminal <==> tells_an_end(events[index])
            &&& tells_work(events[index]) ==> after.rows.contains_key(name) && after.rows[name] == (
            RowSource::Event { index: index as usize })
        },
{
    let kind = events[index].event_type@;
    lemma_families(kind);
    lemma_operation_prefix(events[index]);
    let doc = doc_of(events, index);
    if let Some(state) = doc[Field::State].text {
        if kind == "operation."@ + state {
            lemma_state_of(kind, state);
            lemma_words();
        }
    }
}

proof fn lemma_end_is_kept(
    session_id: SessionId,
    seen: FoldView,
    events: Seq<ProjectionEvent>,
    index: int,
    id: Seq<char>,
)
    requires
        seen.histories.contains_key((ProjectionView::ActiveWork, id)),
        seen.histories[(ProjectionView::ActiveWork, id)].terminal,
    ensures
        event_step(session_id, seen, events, index) matches Some(after) ==> {
            &&& after.histories.contains_key((ProjectionView::ActiveWork, id))
            &&& after.histories[(ProjectionView::ActiveWork, id)].terminal
        },
{
}

proof fn lemma_end_stays(
    session_id: SessionId,
    events: Seq<ProjectionEvent>,
    index: int,
    id: Seq<char>,
    count: nat,
)
    requires
        0 <= index < count,
        seen_after(session_id, events, count) is Some,
        about_operation(events[index], id),
        tells_an_end(events[index]),
    ensures
        ({
            let name = (ProjectionView::ActiveWork, id);
            let seen = seen_after(session_id, events, count)->Some_0;
            seen.histories.contains_key(name) && seen.histories[name].terminal
        }),
    decreases count,
{
    let before = (count - 1) as nat;
    lemma_earlier(session_id, events, before, count);
    let seen = seen_after(session_id, events, before)->Some_0;
    if index == before {
        lemma_operation_event(session_id, seen, events, index, id);
    } else {
        lemma_end_stays(session_id, events, index, id, before);
        lemma_end_is_kept(session_id, seen, events, before as int, id);
    }
}

/// An operation that succeeded, failed or was cancelled is not among the active work, wherever
/// in the journal that is told.
pub proof fn ended_operations_leave_the_active_work(
    session_id: SessionId,
    events: Vec<ProjectionEvent>,
    index: int,
    id: Seq<char>,
    rebuilt: RebuiltProjection,
)
    requires
        call_ensures(
            rebuild_projection,
            (session_id, &events),
            Ok::<RebuiltProjection, StoreError>(rebuilt),
        ),
        0 <= index < events@.len(),
        tells_an_end(events@[index]),
        json_text(events@[index].data@, "operation_id"@) == Some(id),
    ensures
        !rebuilt.rows@.contains_key((ProjectionView::ActiveWork, id)),
{
    lemma_operation_prefix(events@[index]);
    lemma_end_stays(session_id, events@, index, id, events@.len());
    active_work_has_not_ended(session_id, events@, events@.len());
    let seen = seen_after(session_id, events@, events@.len())->Some_0;
    assert(!seen.rows.contains_key((ProjectionView::ActiveWork, id)));
}

proof fn lemma_other_rows_are_kept(
    session_id: SessionId,
    seen: FoldView,
    events: Seq<ProjectionEvent>,
    index: int,
    view: ProjectionView,
    id: Seq<char>,
)
    requires
        seen.rows.contains_key((view, id)),
        view is ActiveWork ==> !about_operation(events[index], id),
        view is Delivery ==> !about_message(events[index], id),
        view is Approval ==> !about_approval(events[index], id),
        view is SessionTree ==> !about_participant(events[index], id),
        view is ActiveWork || view is Delivery || view is Approval || view is SessionTree,
    ensures
        event_step(session_id, seen, events, index) matches Some(after) ==> {
            &&& after.rows.contains_key((view, id))
            &&& after.rows[(view, id)] == seen.rows[(view, id)]
        },
{
    lemma_families(events[index].event_type@);
}

proof fn lemma_row_event(
    session_id: SessionId,
    seen: FoldView,
    events: Seq<ProjectionEvent>,
    index: int,
    view: ProjectionView,
    id: Seq<char>,
)
    requires
        view is Delivery ==> about_message(events[index], id),
        view is Approval ==> about_approval(events[index], id),
        view is SessionTree ==> about_participant(events[index], id),
        view is Delivery || view is Approval || view is SessionTree,
    ensures
        event_step(session_id, seen, events, index) matches Some(after) ==> {
            &&& after.rows.contains_key((view, id))
            &&& after.rows[(view, id)] == (RowSource::Event { index: index as usize })
        },
{
    lemma_families(events[index].event_type@);
}

proof fn lemma_row_stays(
    session_id: SessionId,
    events: Seq<ProjectionEvent>,
    index: int,
    view: ProjectionView,
    id: Seq<char>,
    count: nat,
)
    requires
        0 <= index < count <= events.len(),
        seen_after(session_id, events, count) is Some,
        view is ActiveWork ==> about_operation(events[index], id) && tells_work(events[index]),
        view is Delivery ==> about_message(events[index], id),
        view is Approval ==> about_approval(events[index], id),
        view is SessionTree ==> about_participant(events[index], id),
        view is ActiveWork || view is Delivery || view is Approval || view is SessionTree,
        forall|j: int|
            index < j < events.len() ==> {
                &&& view is ActiveWork ==> !about_operation(#[trigger] events[j], id)
                &&& view is Delivery ==> !about_message(events[j], id)
                &&& view is Approval ==> !about_approval(events[j], id)
                &&& view is SessionTree ==> !about_participant(events[j], id)
            },
    ensures
        ({
            let seen = seen_after(session_id, events, count)->Some_0;
            seen.rows.contains_key((view, id)) && seen.rows[(view, id)] == (RowSource::Event {
                index: index as usize,
            })
        }),
    decreases count,
{
    let before = (count - 1) as nat;
    lemma_earlier(session_id, events, before, count);
    let seen = seen_after(session_id, events, before)->Some_0;
    if index == before {
        if view is ActiveWork {
            lemma_operation_event(session_id, seen, events, index, id);
        } else {
            lemma_row_event(session_id, seen, events, index, view, id);
        }
    } else {
        lemma_row_stays(session_id, events, index, view, id, before);
        lemma_other_rows_are_kept(session_id, seen, events, before as int, view, id);
    }
}

/// An operation that goes on is among the active work, with the latest that was told of it.
pub proof fn active_work_shows_the_latest(
    session_id: SessionId,
    events: Vec<ProjectionEvent>,
    index: int,
    id: Seq<char>,
    rebuilt: RebuiltProjection,
)
    requires
        call_ensures(
            rebuild_projection,
            (session_id, &events),
            Ok::<RebuiltProjection, StoreError>(rebuilt),
        ),
        0 <= index < events@.len(),
        tells_work(events@[index]),
        json_text(events@[index].data@, "operation_id"@) == Some(id),
        forall|j: int| index < j < events@.len() ==> !about_operation(#[trigger] events@[j], id),
    ensures
        rebuilt.rows@.contains_key((ProjectionView::ActiveWork, id)),
        rebuilt.rows@[(ProjectionView::ActiveWork, id)] == (RowSource::Event {
            index: index as usize,
        }),
{
    lemma_operation_prefix(events@[index]);
    lemma_row_stays(
        session_id,
        events@,
        index,
        ProjectionView::ActiveWork,
        id,
        events@.len(),
    );
}

/// Messages, approvals and participants stay in their views, each with the latest that was told
/// of it.
pub proof fn views_show_the_latest(
    session_id: SessionId,
    events: Vec<ProjectionEvent>,
    index: int,
    id: Seq<char>,
    rebuilt: RebuiltProjection,
)
    requires
        call_ensures(
            rebuild_projection,
            (session_id, &events),
            Ok::<RebuiltProjection, StoreError>(rebuilt),
        ),
        0 <= index < events@.len(),
    ensures
        about_message(events@[index], id) && (forall|j: int|
            index < j < events@.len() ==> !about_message(#[trigger] events@[j], id)) ==> {
            let name = (ProjectionView::Delivery, id);
            rebuilt.rows@.contains_key(name) && rebuilt.rows@[name] == (RowSource::Event {
                index: index as usize,
            })
        },
        about_approval(events@[index], id) && (forall|j: int|
            index < j < events@.len() ==> !about_approval(#[trigger] events@[j], id)) ==> {
            let name = (ProjectionView::Approval, id);
            rebuilt.rows@.contains_key(name) && rebuilt.rows@[name] == (RowSource::Event {
                index: index as usize,
            })
        },
        about_participant(events@[index], id) && (forall|j: int|
            index < j < events@.len() ==> !about_participant(#[trigger] events@[j], id)) ==> {
            let name = (ProjectionView::SessionTree, id);
            rebuilt.rows@.contains_key(name) && rebuilt.rows@[name] == (RowSource::Event {
                index: index as usize,
            })
        },
{
    let count = events@.len();
    if about_message(events@[index], id) && (forall|j: int|
        index < j < events@.len() ==> !about_message(#[trigger] events@[j], id)) {
        lemma_row_stays(session_id, events@, index, ProjectionView::Delivery, id, count);
    }
    if about_approval(events@[index], id) && (forall|j: int|
        index < j < events@.len() ==> !about_approval(#[trigger] events@[j], id)) {
        lemma_row_stays(session_id, events@, index, ProjectionView::Approval, id, count);
    }
    if about_participant(events@[index], id) && (forall|j: int|
        index < j < events@.len() ==> !about_participant(#[trigger] events@[j], id)) {
        lemma_row_stays(session_id, events@, index, ProjectionView::SessionTree, id, count);
    }
}

/// A journal is folded only if it is without gaps, from position one on, in the one schema that
/// there is. What is counted are the rows of the views; the metrics of the session are a row of
/// their own.
pub proof fn rebuilt_views_are_counted(
    session_id: SessionId,
    events: Vec<ProjectionEvent>,
    index: int,
    rebuilt: RebuiltProjection,
)
    requires
        call_ensures(
            rebuild_projection,
            (session_id, &events),
            Ok::<RebuiltProjection, StoreError>(rebuilt),
        ),
    ensures
        0 <= index < events@.len() ==> {
            &&& events@[index].position == index + 1
            &&& events@[index].schema_version == 1
            &&& events@[index].revision >= 0
        },
        rebuilt.checkpoint == events@.len(),
        rebuilt.rows@.contains_key((ProjectionView::Capacity, "session"@)),
        rebuilt.rows@[(ProjectionView::Capacity, "session"@)] is CapacityMetrics,
        rebuilt.participants == rebuilt.rows@.dom().filter(
            |name: (ProjectionView, Seq<char>)| name.0 is SessionTree,
        ).len(),
        rebuilt.active_work == rebuilt.rows@.dom().filter(
            |name: (ProjectionView, Seq<char>)| name.0 is ActiveWork,
        ).len(),
        rebuilt.deliveries == rebuilt.rows@.dom().filter(
            |name: (ProjectionView, Seq<char>)| name.0 is Delivery,
        ).len(),
{
    if 0 <= index < events@.len() {
        lemma_earlier(session_id, events@, index as nat, events@.len());
    }
    let seen = seen_after(session_id, events@, events@.len())->Some_0;
    assert(keys_of(seen.rows, ProjectionView::SessionTree) =~= rebuilt.rows@.dom().filter(
        |name: (ProjectionView, Seq<char>)| name.0 is SessionTree,
    ));
    assert(keys_of(seen.rows, ProjectionView::ActiveWork) =~= rebuilt.rows@.dom().filter(
        |name: (ProjectionView, Seq<char>)| name.0 is ActiveWork,
    ));
    assert(keys_of(seen.rows, ProjectionView::Delivery) =~= rebuilt.rows@.dom().filter(
        |name: (ProjectionView, Seq<char>)| name.0 is Delivery,
    ));
}

/// An empty journal gives empty views.
pub proof fn empty_journals_give_empty_views(
    session_id: SessionId,
    events: Vec<ProjectionEvent>,
    name: (ProjectionView, Seq<char>),
    result: Result<RebuiltProjection, StoreError>,
)
    requires
        call_ensures(rebuild_projection, (session_id, &events), result),
        events@.len() == 0,
    ensures
        result matches Ok(rebuilt) && rebuilt.checkpoint == 0 && (rebuilt.rows@.contains_key(name)
            <==> name == (ProjectionView::Capacity, "session"@)),
{
}

/// The views stand as they are exactly while the journal has not grown since.
pub proof fn views_are_rebuilt_when_the_journal_grew(
    session_id: SessionId,
    current: Option<(i64, i64)>,
    source_head: i64,
    result: Result<Option<ProjectionRebuild>, StoreError>,
)
    requires
        call_ensures(unchanged_projection, (session_id, current, source_head), result),
    ensures
        result matches Ok(Some(_)) <==> (current matches Some((generation, checkpoint))
            && checkpoint == source_head && generation >= 0 && checkpoint >= 0),
        result matches Ok(Some(kept)) ==> {
            &&& kept.session_id == session_id
            &&& kept.generation == current->Some_0.0
            &&& kept.checkpoint_position is None <==> source_head == 0
            &&& kept.checkpoint_position matches Some(position) ==> position == source_head
        },
        current is None || current->Some_0.1 != source_head ==> result == Ok::<
            Option<ProjectionRebuild>,
            StoreError,
        >(None),
        result matches Err(error) ==> error == StoreError::Corrupt,
{
}

/// Old generations are kept for a minute.
pub proof fn generations_are_kept_for_a_minute(now_seconds: i64, result: Result<i64, StoreError>)
    requires
        call_ensures(projection_gc_before, (now_seconds,), result),
    ensures
        result is Ok <==> now_seconds - 60 >= i64::MIN,
        result matches Ok(before) ==> before + 60 == now_seconds,
        result matches Err(error) ==> error == StoreError::Corrupt,
{
}

/// The event asks for the approval with this identity.
pub open spec fn asks_for(event: ProjectionEvent, id: Seq<char>) -> bool {
    event.event_type@ == "approval.requested"@ && json_text(event.data@, "approval_id"@) == Some(id)
}

/// The event decides about the approval with this identity, or tells that its time is up.
pub open spec fn decides_about(event: ProjectionEvent, id: Seq<char>) -> bool {
    (event.event_type@ == "approval.granted"@ || event.event_type@ == "approval.denied"@
        || event.event_type@ == "approval.expired"@) && json_text(event.data@, "approval_id"@)
        == Some(id)
}

/// The event gives leave for the approval with this identity.
pub open spec fn gives_leave(event: ProjectionEvent, id: Seq<char>, grant: Seq<char>) -> bool {
    event.event_type@ == "approval.granted"@ && json_text(event.data@, "approval_id"@) == Some(id)
        && json_text(event.data@, "grant_id"@) == Some(grant)
}

/// The event takes back, uses, or tells what came of using the leave.
pub open spec fn uses_leave(event: ProjectionEvent, id: Seq<char>, grant: Seq<char>) -> bool {
    (event.event_type@ == "approval.revoked"@ || event.event_type@ == "approval.consumed"@
        || event.event_type@ == "approval.effect.finished"@) && json_text(
        event.data@,
        "approval_id"@,
    ) == Some(id) && json_text(event.data@, "grant_id"@) == Some(grant)
}

/// The event takes the leave for this approval back.
pub open spec fn takes_back(event: ProjectionEvent, id: Seq<char>) -> bool {
    event.event_type@ == "approval.revoked"@ && json_text(event.data@, "approval_id"@) == Some(id)
}

proof fn lemma_approval_names()
    ensures
        "approval.requested"@.len() == 18,
        "approval.granted"@.len() == 16 && "approval.granted"@[9] == 'g',
        "approval.denied"@.len() == 15,
        "approval.expired"@.len() == 16 && "approval.expired"@[9] == 'e',
        "approval.revoked"@.len() == 16 && "approval.revoked"@[9] == 'r',
        "approval.consumed"@.len() == 17,
        "approval.effect.finished"@.len() == 24,
        "approval."@.is_prefix_of("approval.requested"@),
        "approval."@.is_prefix_of("approval.granted"@),
        "approval."@.is_prefix_of("approval.denied"@),
        "approval."@.is_prefix_of("approval.expired"@),
        "approval."@.is_prefix_of("approval.revoked"@),
        "approval."@.is_prefix_of("approval.consumed"@),
        "approval."@.is_prefix_of("approval.effect.finished"@),
{
    reveal_strlit("approval.");
    reveal_strlit("approval.requested");
    reveal_strlit("approval.granted");
    reveal_strlit("approval.denied");
    reveal_strlit("approval.expired");
    reveal_strlit("approval.revoked");
    reveal_strlit("approval.consumed");
    reveal_strlit("approval.effect.finished");
    assert("approval.requested"@.subrange(0, 9) =~= "approval."@);
    assert("approval.granted"@.subrange(0, 9) =~= "approval."@);
    assert("approval.denied"@.subrange(0, 9) =~= "approval."@);
    assert("approval.expired"@.subrange(0, 9) =~= "approval."@);
    assert("approval.revoked"@.subrange(0, 9) =~= "approval."@);
    assert("approval.consumed"@.subrange(0, 9) =~= "approval."@);
    assert("approval.effect.finished"@.subrange(0, 9) =~= "approval."@);
}

spec fn stands_so(
    seen: FoldView,
    events: Seq<ProjectionEvent>,
    count: nat,
    id: Seq<char>,
    grant: Seq<char>,
) -> bool {
    let name = (ProjectionView::Approval, id);
    let held = (ProjectionView::Approval, grant);
    &&& seen.approvals.contains_key(name) <==> exists|j: int|
        0 <= j < count && asks_for(#[trigger] events[j], id)
    &&& seen.approvals.contains_key(name) && seen.approvals[name].phase is Requested
        ==> seen.approvals[name].revision == 1
    &&& (exists|j: int| 0 <= j < count && decides_about(#[trigger] events[j], id))
        ==> seen.approvals.contains_key(name) && !(seen.approvals[name].phase is Requested)
    &&& (exists|j: int| 0 <= j < count && takes_back(#[trigger] events[j], id))
        ==> seen.approvals.contains_key(name) && seen.approvals[name].phase is Revoked
    &&& seen.grants.contains_key(held) ==> {
        let giving = seen.grants[held].event as int;
        0 <= giving < count && json_text(events[giving].data@, "approval_id"@) is Some
            && gives_leave(
            events[giving],
            json_text(events[giving].data@, "approval_id"@)->Some_0,
            grant,
        )
    }
    &&& (exists|j: int, other: Seq<char>|
        0 <= j < count && #[trigger] gives_leave(events[j], other, grant))
        ==> seen.grants.contains_key(held)
}

proof fn lemma_approval_step(
    session_id: SessionId,
    seen: FoldView,
    events: Seq<ProjectionEvent>,
    count: nat,
    id: Seq<char>,
    grant: Seq<char>,
)
    requires
        stands_so(seen, events, count, id, grant),
        count < events.len() < usize::MAX,
    ensures
        event_step(session_id, seen, events, count as int) matches Some(after) ==> stands_so(
            after,
            events,
            count + 1,
            id,
            grant,
        ),
{
    lemma_approval_names();
    lemma_families(events[count as int].event_type@);
    if let Some(after) = event_step(session_id, seen, events, count as int) {
        let event = events[count as int];
        let name = (ProjectionView::Approval, id);
        let held = (ProjectionView::Approval, grant);
        if after.approvals.contains_key(name) {
            if asks_for(event, id) {
                assert(asks_for(events[count as int], id));
            } else {
                assert(seen.approvals.contains_key(name));
                let j = choose|j: int| 0 <= j < count && asks_for(#[trigger] events[j], id);
                assert(asks_for(events[j], id));
            }
        }
        if exists|j: int| 0 <= j < count + 1 && asks_for(#[trigger] events[j], id) {
            let j = choose|j: int| 0 <= j < count + 1 && asks_for(#[trigger] events[j], id);
            if j < count {
                assert(asks_for(events[j], id));
                assert(seen.approvals.contains_key(name));
            }
            assert(after.approvals.contains_key(name));
        }
        if exists|j: int| 0 <= j < count + 1 && decides_about(#[trigger] events[j], id) {
            let j = choose|j: int| 0 <= j < count + 1 && decides_about(#[trigger] events[j], id);
            if j < count {
                assert(decides_about(events[j], id));
                assert(!(seen.approvals[name].phase is Requested));
            }
        }
        if exists|j: int| 0 <= j < count + 1 && takes_back(#[trigger] events[j], id) {
            let j = choose|j: int| 0 <= j < count + 1 && takes_back(#[trigger] events[j], id);
            if j < count {
                assert(takes_back(events[j], id));
                assert(seen.approvals[name].phase is Revoked);
            }
        }
        if exists|j: int, other: Seq<char>|
            0 <= j < count + 1 && #[trigger] gives_leave(events[j], other, grant) {
            let (j, other) = choose|j: int, other: Seq<char>|
                0 <= j < count + 1 && #[trigger] gives_leave(events[j], other, grant);
            if j < count {
                assert(gives_leave(events[j], other, grant));
                assert(seen.grants.contains_key(held));
            }
            assert(after.grants.contains_key(held));
        }
    }
}

proof fn lemma_approvals(
    session_id: SessionId,
    events: Seq<ProjectionEvent>,
    count: nat,
    id: Seq<char>,
    grant: Seq<char>,
)
    requires
        count <= events.len() < usize::MAX,
        seen_after(session_id, events, count) is Some,
    ensures
        stands_so(seen_after(session_id, events, count)->Some_0, events, count, id, grant),
    decreases count,
{
    if count > 0 {
        let before = (count - 1) as nat;
        lemma_earlier(session_id, events, before, count);
        lemma_approvals(session_id, events, before, id, grant);
        lemma_approval_step(
            session_id,
            seen_after(session_id, events, before)->Some_0,
            events,
            before,
            id,
            grant,
        );
    }
}

/// An approval is asked for once and then decided once: what is decided was asked for before, at
/// the first revision, and nothing else was decided about it.
pub proof fn approvals_are_decided_once(
    session_id: SessionId,
    events: Vec<ProjectionEvent>,
    index: int,
    id: Seq<char>,
    other: int,
    rebuilt: RebuiltProjection,
)
    requires
        call_ensures(
            rebuild_projection,
            (session_id, &events),
            Ok::<RebuiltProjection, StoreError>(rebuilt),
        ),
        events@.len() < usize::MAX,
        0 <= index < events@.len(),
        0 <= other < events@.len(),
    ensures
        asks_for(events@[index], id) ==> {
            &&& json_number(events@[index].data@, "request_revision"@) == Some(1u64)
            &&& json_text(events@[index].data@, "grant_id"@) is None
            &&& asks_for(events@[other], id) ==> other == index
        },
        decides_about(events@[index], id) ==> {
            &&& json_number(events@[index].data@, "request_revision"@) == Some(2u64)
            &&& events@[index].event_type@ == "approval.granted"@ <==> json_text(
                events@[index].data@,
                "grant_id"@,
            ) is Some
            &&& exists|j: int| 0 <= j < index && asks_for(#[trigger] events@[j], id)
            &&& decides_about(events@[other], id) ==> other == index
        },
{
    let first = if index <= other {
        index
    } else {
        other
    };
    let second = if index <= other {
        other
    } else {
        index
    };
    lemma_approval_names();
    lemma_families(events@[index].event_type@);
    lemma_families(events@[other].event_type@);
    lemma_earlier(session_id, events@, index as nat, events@.len());
    lemma_approvals(session_id, events@, index as nat, id, id);
    lemma_earlier(session_id, events@, second as nat, events@.len());
    lemma_approvals(session_id, events@, second as nat, id, id);
    if first < second {
        assert(asks_for(events@[first], id) ==> seen_after(
            session_id,
            events@,
            second as nat,
        )->Some_0.approvals.contains_key((ProjectionView::Approval, id)));
    }
}

/// Leave is used, taken back, or told of only after it was given for that approval; and once it
/// was taken back it is not used again.
pub proof fn leave_is_used_after_it_was_given(
    session_id: SessionId,
    events: Vec<ProjectionEvent>,
    index: int,
    id: Seq<char>,
    grant: Seq<char>,
    other: int,
    rebuilt: RebuiltProjection,
)
    requires
        call_ensures(
            rebuild_projection,
            (session_id, &events),
            Ok::<RebuiltProjection, StoreError>(rebuilt),
        ),
        events@.len() < usize::MAX,
        0 <= index < events@.len(),
        uses_leave(events@[index], id, grant),
    ensures
        exists|j: int| 0 <= j < index && #[trigger] gives_leave(events@[j], id, grant),
        0 <= other < index ==> !takes_back(events@[other], id),
{
    lemma_approval_names();
    lemma_families(events@[index].event_type@);
    lemma_earlier(session_id, events@, index as nat, events@.len());
    lemma_approvals(session_id, events@, index as nat, id, grant);
    let seen = seen_after(session_id, events@, index as nat)->Some_0;
    let giving = seen.grants[(ProjectionView::Approval, grant)].event as int;
    assert(gives_leave(events@[giving], id, grant));
}

spec fn grown(
    tree: Map<(ProjectionView, Seq<char>), usize>,
    events: Seq<ProjectionEvent>,
    count: nat,
) -> bool {
    &&& forall|name: (ProjectionView, Seq<char>)| #[trigger]
        tree.contains_key(name) ==> {
            let data = events[tree[name] as int].data@;
            &&& tree[name] < count
            &&& about_participant(events[tree[name] as int], name.1)
            &&& json_number(data, "depth"@) matches Some(depth)
            &&& depth >= 1
            &&& depth == 1 <==> json_text(data, "parent_participant_id"@) is None
            &&& json_text(data, "parent_participant_id"@) matches Some(parent) ==> exists|j: int|
                0 <= j < tree[name] && #[trigger] about_participant(events[j], parent)
                    && json_number(events[j].data@, "depth"@) == Some((depth - 1) as u64)
        }
    &&& forall|one: (ProjectionView, Seq<char>), other: (ProjectionView, Seq<char>)|
        #[trigger] tree.contains_key(one) && #[trigger] tree.contains_key(other) && json_text(
            events[tree[one] as int].data@,
            "parent_participant_id"@,
        ) is None && json_text(events[tree[other] as int].data@, "parent_participant_id"@) is None
            ==> one == other
}

proof fn lemma_tree_step(
    session_id: SessionId,
    seen: FoldView,
    events: Seq<ProjectionEvent>,
    count: nat,
    id: Seq<char>,
)
    requires
        grown(seen.tree, events, count),
        forall|name: (ProjectionView, Seq<char>)| #[trigger]
            seen.tree.contains_key(name) ==> name.0 is SessionTree,
        count < events.len() < usize::MAX,
    ensures
        event_step(session_id, seen, events, count as int) matches Some(after) ==> {
            &&& grown(after.tree, events, count + 1)
            &&& forall|name: (ProjectionView, Seq<char>)| #[trigger]
                after.tree.contains_key(name) ==> name.0 is SessionTree
            &&& about_participant(events[count as int], id) ==> {
                    let name = (ProjectionView::SessionTree, id);
                    &&& after.tree.contains_key(name)
                    &&& json_number(events[count as int].data@, "depth"@) is Some ==> json_number(
                        events[count as int].data@,
                        "depth"@,
                    ) == json_number(events[after.tree[name] as int].data@, "depth"@)
                    &&& json_text(events[count as int].data@, "parent_participant_id"@) is Some
                        ==> json_text(events[count as int].data@, "parent_participant_id"@)
                        == json_text(
                        events[after.tree[name] as int].data@,
                        "parent_participant_id"@,
                    )
                }
        },
{
    lemma_families(events[count as int].event_type@);
    if let Some(after) = event_step(session_id, seen, events, count as int) {
        let event = events[count as int];
        if after.tree != seen.tree {
            let added = json_text(event.data@, "participant_id"@)->Some_0;
            let name = (ProjectionView::SessionTree, added);
            assert(after.tree == seen.tree.insert(name, count as usize));
            if let Some(parent) = json_text(event.data@, "parent_participant_id"@) {
                let above = (ProjectionView::SessionTree, parent);
                assert(seen.tree.contains_key(above));
                assert(about_participant(events[seen.tree[above] as int], parent));
            }
            assert forall|other: (ProjectionView, Seq<char>)| #[trigger]
                after.tree.contains_key(other) implies ({
                let data = events[after.tree[other] as int].data@;
                &&& after.tree[other] < count + 1
                &&& about_participant(events[after.tree[other] as int], other.1)
                &&& json_number(data, "depth"@) matches Some(depth)
                &&& depth >= 1
                &&& depth == 1 <==> json_text(data, "parent_participant_id"@) is None
                &&& json_text(data, "parent_participant_id"@) matches Some(parent) ==> exists|
                    j: int,
                |
                    0 <= j < after.tree[other] && #[trigger] about_participant(events[j], parent)
                        && json_number(events[j].data@, "depth"@) == Some((depth - 1) as u64)
            }) by {
                if other != name {
                    assert(seen.tree.contains_key(other));
                }
            }
            assert forall|one: (ProjectionView, Seq<char>), other: (ProjectionView, Seq<char>)|
                #[trigger] after.tree.contains_key(one) && #[trigger] after.tree.contains_key(other)
                    && json_text(
                    events[after.tree[one] as int].data@,
                    "parent_participant_id"@,
                ) is None && json_text(
                    events[after.tree[other] as int].data@,
                    "parent_participant_id"@,
                ) is None implies one == other by {
                assert(one == name || seen.tree.contains_key(one));
                assert(other == name || seen.tree.contains_key(other));
            }
        } else {
            assert forall|name: (ProjectionView, Seq<char>)| #[trigger]
                after.tree.contains_key(name) implies after.tree[name] < count + 1 by {
                assert(seen.tree.contains_key(name));
            }
        }
    }
}

proof fn lemma_tree(session_id: SessionId, events: Seq<ProjectionEvent>, count: nat)
    requires
        count <= events.len() < usize::MAX,
        seen_after(session_id, events, count) is Some,
    ensures
        grown(seen_after(session_id, events, count)->Some_0.tree, events, count),
        forall|name: (ProjectionView, Seq<char>)| #[trigger]
            seen_after(session_id, events, count)->Some_0.tree.contains_key(name) ==> name.0
                is SessionTree,
    decreases count,
{
    if count > 0 {
        let before = (count - 1) as nat;
        lemma_earlier(session_id, events, before, count);
        lemma_tree(session_id, events, before);
        lemma_tree_step(
            session_id,
            seen_after(session_id, events, before)->Some_0,
            events,
            before,
            Seq::empty(),
        );
    }
}

proof fn lemma_tree_stays(
    session_id: SessionId,
    events: Seq<ProjectionEvent>,
    early: nat,
    count: nat,
    name: (ProjectionView, Seq<char>),
)
    requires
        early <= count <= events.len(),
        seen_after(session_id, events, count) is Some,
        seen_after(session_id, events, early)->Some_0.tree.contains_key(name),
    ensures
        seen_after(session_id, events, count)->Some_0.tree.contains_key(name),
        seen_after(session_id, events, count)->Some_0.tree[name] == seen_after(
            session_id,
            events,
            early,
        )->Some_0.tree[name],
    decreases count,
{
    if early < count {
        let before = (count - 1) as nat;
        lemma_earlier(session_id, events, before, count);
        lemma_tree_stays(session_id, events, early, before, name);
        lemma_families(events[before as int].event_type@);
    }
}

/// Every participant but the root hangs below one that was created before, one level deeper than
/// it; the root alone is at depth one.
pub proof fn participants_hang_below_their_parent(
    session_id: SessionId,
    events: Vec<ProjectionEvent>,
    index: int,
    id: Seq<char>,
    other: int,
    other_id: Seq<char>,
    rebuilt: RebuiltProjection,
)
    requires
        call_ensures(
            rebuild_projection,
            (session_id, &events),
            Ok::<RebuiltProjection, StoreError>(rebuilt),
        ),
        events@.len() < usize::MAX,
        0 <= index < events@.len(),
        about_participant(events@[index], id),
    ensures
        json_text(events@[index].data@, "parent_participant_id"@) matches Some(parent) ==> (
        json_number(events@[index].data@, "depth"@) matches Some(depth) ==> exists|j: int|
            0 <= j < index && #[trigger] about_participant(events@[j], parent) && json_number(
                events@[j].data@,
                "depth"@,
            ) == Some((depth - 1) as u64)),
        json_number(events@[index].data@, "depth"@) matches Some(depth) ==> depth >= 1,
        0 <= other < events@.len() && about_participant(events@[other], other_id) && json_number(
            events@[index].data@,
            "depth"@,
        ) == Some(1u64) && json_number(events@[other].data@, "depth"@) == Some(1u64) ==> other_id
            == id,
{
    let count = events@.len();
    let name = (ProjectionView::SessionTree, id);
    lemma_earlier(session_id, events@, index as nat, count);
    lemma_tree(session_id, events@, index as nat);
    lemma_tree_step(
        session_id,
        seen_after(session_id, events@, index as nat)->Some_0,
        events@,
        index as nat,
        id,
    );
    let seen = seen_after(session_id, events@, (index + 1) as nat)->Some_0;
    assert(seen.tree.contains_key(name));
    lemma_tree_stays(session_id, events@, (index + 1) as nat, count, name);
    lemma_tree(session_id, events@, count);
    if 0 <= other < events@.len() && about_participant(events@[other], other_id) {
        let other_name = (ProjectionView::SessionTree, other_id);
        lemma_earlier(session_id, events@, other as nat, count);
        lemma_tree(session_id, events@, other as nat);
        lemma_tree_step(
            session_id,
            seen_after(session_id, events@, other as nat)->Some_0,
            events@,
            other as nat,
            other_id,
        );
        assert(seen_after(session_id, events@, (other + 1) as nat)->Some_0.tree.contains_key(
            other_name,
        ));
        lemma_tree_stays(session_id, events@, (other + 1) as nat, count, other_name);
    }
}

/// The event uses this grant, or takes it back.
pub open spec fn spends(event: ProjectionEvent, grant: Seq<char>) -> bool {
    (event.event_type@ == "approval.consumed"@ || event.event_type@ == "approval.revoked"@)
        && json_text(event.data@, "grant_id"@) == Some(grant)
}

/// How many of the first events use this grant, or take it back.
pub open spec fn spent_before(
    events: Seq<ProjectionEvent>,
    count: nat,
    grant: Seq<char>,
) -> nat
    decreases count,
{
    if count == 0 {
        0
    } else {
        spent_before(events, (count - 1) as nat, grant) + if spends(events[count - 1], grant) {
            1nat
        } else {
            0
        }
    }
}

/// The event begins this effect.
pub open spec fn begins(event: ProjectionEvent, effect: Seq<char>) -> bool {
    event.event_type@ == "approval.consumed"@ && json_text(event.data@, "effect_id"@) == Some(
        effect,
    )
}

/// The event finishes this effect.
pub open spec fn finishes(event: ProjectionEvent, effect: Seq<char>) -> bool {
    event.event_type@ == "approval.effect.finished"@ && json_text(event.data@, "effect_id"@)
        == Some(effect)
}

spec fn used_so(
    seen: FoldView,
    events: Seq<ProjectionEvent>,
    count: nat,
    grant: Seq<char>,
    effect: Seq<char>,
) -> bool {
    let held = (ProjectionView::Approval, grant);
    let name = (ProjectionView::Approval, effect);
    &&& seen.grants.contains_key(held) ==> seen.grants[held].revision == 1 + spent_before(
        events,
        count,
        grant,
    )
    &&& !seen.grants.contains_key(held) ==> spent_before(events, count, grant) == 0
    &&& seen.effects.contains_key(name) <==> exists|j: int|
        0 <= j < count && (begins(#[trigger] events[j], effect) || finishes(events[j], effect))
    &&& seen.effects.contains_key(name) && !seen.effects[name].completed
        ==> seen.effects[name].revision == 1
    &&& (exists|j: int| 0 <= j < count && finishes(#[trigger] events[j], effect))
        ==> seen.effects.contains_key(name) && seen.effects[name].completed
    &&& seen.effects.contains_key(name) && seen.effects[name].completed ==> exists|j: int|
        0 <= j < count && finishes(#[trigger] events[j], effect)
}

proof fn lemma_use_step(
    session_id: SessionId,
    seen: FoldView,
    events: Seq<ProjectionEvent>,
    count: nat,
    grant: Seq<char>,
    effect: Seq<char>,
)
    requires
        used_so(seen, events, count, grant, effect),
        count < events.len() < usize::MAX,
    ensures
        event_step(session_id, seen, events, count as int) matches Some(after) ==> used_so(
            after,
            events,
            count + 1,
            grant,
            effect,
        ),
{
    lemma_approval_names();
    lemma_families(events[count as int].event_type@);
    if let Some(after) = event_step(session_id, seen, events, count as int) {
        let event = events[count as int];
        let name = (ProjectionView::Approval, effect);
        assert(spent_before(events, count + 1, grant) == spent_before(events, count, grant)
            + if spends(event, grant) {
            1nat
        } else {
            0
        });
        if exists|j: int|
            0 <= j < count + 1 && (begins(#[trigger] events[j], effect) || finishes(
                events[j],
                effect,
            )) {
            let j = choose|j: int|
                0 <= j < count + 1 && (begins(#[trigger] events[j], effect) || finishes(
                    events[j],
                    effect,
                ));
            if j < count {
                assert(seen.effects.contains_key(name));
            }
            assert(after.effects.contains_key(name));
        }
        if after.effects.contains_key(name) {
            if begins(event, effect) || finishes(event, effect) {
                assert(begins(events[count as int], effect) || finishes(
                    events[count as int],
                    effect,
                ));
            } else {
                assert(seen.effects.contains_key(name));
                let j = choose|j: int|
                    0 <= j < count && (begins(#[trigger] events[j], effect) || finishes(
                        events[j],
                        effect,
                    ));
                assert(begins(events[j], effect) || finishes(events[j], effect));
            }
        }
        if exists|j: int| 0 <= j < count + 1 && finishes(#[trigger] events[j], effect) {
            let j = choose|j: int| 0 <= j < count + 1 && finishes(#[trigger] events[j], effect);
            if j < count {
                assert(finishes(events[j], effect));
                assert(seen.effects[name].completed);
            }
        }
        if after.effects.contains_key(name) && after.effects[name].completed {
            if finishes(event, effect) {
                assert(finishes(events[count as int], effect));
            } else {
                let j = choose|j: int| 0 <= j < count && finishes(#[trigger] events[j], effect);
                assert(finishes(events[j], effect));
            }
        }
    }
}

proof fn lemma_uses(
    session_id: SessionId,
    events: Seq<ProjectionEvent>,
    count: nat,
    grant: Seq<char>,
    effect: Seq<char>,
)
    requires
        count <= events.len() < usize::MAX,
        seen_after(session_id, events, count) is Some,
    ensures
        used_so(seen_after(session_id, events, count)->Some_0, events, count, grant, effect),
    decreases count,
{
    if count > 0 {
        let before = (count - 1) as nat;
        lemma_earlier(session_id, events, before, count);
        lemma_uses(session_id, events, before, grant, effect);
        lemma_use_step(
            session_id,
            seen_after(session_id, events, before)->Some_0,
            events,
            before,
            grant,
            effect,
        );
    }
}

/// Every use of leave revises its grant once. An effect is begun once, at its first revision, and
/// finished once, at the next; one that was never begun is finished without a revision.
pub proof fn uses_of_leave_are_counted(
    session_id: SessionId,
    events: Vec<ProjectionEvent>,
    index: int,
    grant: Seq<char>,
    effect: Seq<char>,
    other: int,
    rebuilt: RebuiltProjection,
)
    requires
        call_ensures(
            rebuild_projection,
            (session_id, &events),
            Ok::<RebuiltProjection, StoreError>(rebuilt),
        ),
        events@.len() < usize::MAX,
        0 <= index < events@.len(),
    ensures
        gives_leave(
            events@[index],
            json_text(events@[index].data@, "approval_id"@)->Some_0,
            grant,
        ) ==> json_number(events@[index].data@, "grant_revision"@) == Some(1u64),
        spends(events@[index], grant) ==> (json_number(
            events@[index].data@,
            "grant_revision"@,
        ) matches Some(revision) && revision == 2 + spent_before(events@, index as nat, grant)),
        begins(events@[index], effect) ==> {
            &&& json_number(events@[index].data@, "effect_revision"@) == Some(1u64)
            &&& 0 <= other < index ==> !begins(events@[other], effect) && !finishes(
                events@[other],
                effect,
            )
        },
        finishes(events@[index], effect) ==> {
            &&& 0 <= other < index ==> !finishes(events@[other], effect)
            &&& 0 <= other < index && begins(events@[other], effect) ==> json_number(
                events@[index].data@,
                "effect_revision"@,
            ) == Some(2u64)
            &&& (forall|j: int| 0 <= j < index ==> !begins(#[trigger] events@[j], effect))
                ==> json_number(events@[index].data@, "effect_revision"@) == Some(0u64)
        },
{
    lemma_approval_names();
    lemma_families(events@[index].event_type@);
    lemma_earlier(session_id, events@, index as nat, events@.len());
    lemma_uses(session_id, events@, index as nat, grant, effect);
    let seen = seen_after(session_id, events@, index as nat)->Some_0;
    let name = (ProjectionView::Approval, effect);
    if 0 <= other < index && (begins(events@[other], effect) || finishes(events@[other], effect)) {
        assert(seen.effects.contains_key(name));
    }
    if seen.effects.contains_key(name) && finishes(events@[index], effect) {
        let j = choose|j: int|
            0 <= j < index && (begins(#[trigger] events@[j], effect) || finishes(
                events@[j],
                effect,
            ));
        assert(begins(events@[j], effect) || finishes(events@[j], effect));
    }
}

} // verus!
