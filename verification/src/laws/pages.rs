//! Reading a view page by page, and the generations of a view.

use crate::error::StoreError;
use crate::ids::SessionId;
use crate::projection::page::{
    admit_page, continue_page, coordinates_json, finish_page, first_page, hmac_sha256,
    projection_signature, projection_token, verify_projection_signature, PageCoordinates, PageRow,
    PageStart, PinnedGeneration, ProjectionPage, ProjectionTokenWire, ReadProjection,
};
use crate::projection::publish::{
    dropped, greatest, newer, publish_generation, superseded, with_published, Generation,
    GenerationState, Publication,
};
use crate::projection::ProjectionView;
use crate::text::uuid_text;
use crate::time::Timestamp;
use vstd::prelude::*;
use vstd::string::StringSliceAdditionalSpecFns;

verus! {

/// What is signed of the coordinates of a page: all of them, and whose they are.
pub open spec fn is_signed_under(
    key: Seq<u8>,
    consumer: Seq<char>,
    coordinates: PageCoordinates,
    signature: Seq<u8>,
) -> bool {
    let view = match coordinates.view {
        ProjectionView::SessionTree => "session_tree"@,
        ProjectionView::ActiveWork => "active_work"@,
        ProjectionView::Delivery => "delivery"@,
        ProjectionView::Approval => "approval"@,
        ProjectionView::Recovery => "recovery"@,
        ProjectionView::Capacity => "capacity"@,
        ProjectionView::Failure => "failure"@,
    };
    signature == hmac_sha256(
        key,
        "navigator.projection.page-token.v1\0".spec_bytes() + coordinates_json(
            consumer,
            uuid_text(coordinates.session_id.0),
            view,
            coordinates.generation,
            coordinates.checkpoint,
            coordinates.expires_seconds,
            coordinates.page_size,
            coordinates.last_sort_key@,
            coordinates.last_item_key@,
        ),
    )
}

/// A token carries its coordinates with a signature over all of them, and only such a signature
/// is accepted.
pub proof fn tokens_are_signed(
    key: [u8; 32],
    consumer: &str,
    coordinates: PageCoordinates,
    signature: [u8; 32],
    issued: ProjectionTokenWire,
    wire: ProjectionTokenWire,
    accepted: bool,
)
    requires
        call_ensures(projection_signature, (&key, consumer, &coordinates), signature),
        call_ensures(projection_token, (&key, consumer, coordinates), issued),
        call_ensures(verify_projection_signature, (&key, consumer, &wire), accepted),
    ensures
        is_signed_under(key@, consumer@, coordinates, signature@),
        issued.coordinates == coordinates,
        issued.signature@ == signature@,
        accepted <==> is_signed_under(key@, consumer@, wire.coordinates, wire.signature@),
{
}

/// A token is taken only from the consumer of the session, for the session, the view and the
/// page size it was issued for, with its signature; reading then goes on where the token says.
pub proof fn tokens_are_taken_as_issued(
    key: [u8; 32],
    session_consumer: &str,
    query: ReadProjection,
    token: Option<ProjectionTokenWire>,
    result: Result<PageStart, StoreError>,
)
    requires
        call_ensures(continue_page, (&key, session_consumer, &query, token), result),
    ensures
        result is Ok <==> {
            &&& session_consumer@ == query.consumer@
            &&& token matches Some(wire)
            &&& wire.coordinates.session_id == query.session_id
            &&& wire.coordinates.view == query.view
            &&& wire.coordinates.page_size == query.page_size
            &&& is_signed_under(key@, query.consumer@, wire.coordinates, wire.signature@)
        },
        result matches Ok(start) ==> {
            let coordinates = token->Some_0.coordinates;
            &&& start.generation == coordinates.generation
            &&& start.checkpoint == coordinates.checkpoint
            &&& start.last_sort_key == coordinates.last_sort_key
            &&& start.last_item_key == coordinates.last_item_key
            &&& start.expires_seconds == Some(coordinates.expires_seconds)
        },
        result matches Err(error) ==> error == StoreError::Invalid,
{
}

/// The first page starts before everything, in the generation that is published, for the
/// consumer of the session only.
pub proof fn first_pages_start_at_the_head(
    session_consumer: &str,
    query: ReadProjection,
    head: Option<(i64, i64)>,
    result: Result<PageStart, StoreError>,
)
    requires
        call_ensures(first_page, (session_consumer, &query, head), result),
    ensures
        result is Ok <==> session_consumer@ == query.consumer@ && head is Some && head->Some_0.0
            >= 0 && head->Some_0.1 >= 0,
        result matches Ok(start) ==> {
            &&& start.generation == head->Some_0.0
            &&& start.checkpoint == head->Some_0.1
            &&& start.last_sort_key@.len() == 0
            &&& start.last_item_key@.len() == 0
            &&& start.expires_seconds is None
        },
        session_consumer@ != query.consumer@ ==> result == Err::<PageStart, StoreError>(
            StoreError::Invalid,
        ),
        session_consumer@ == query.consumer@ && head is None ==> result == Err::<
            PageStart,
            StoreError,
        >(StoreError::Unavailable),
        session_consumer@ == query.consumer@ && head is Some && result is Err ==> result == Err::<
            PageStart,
            StoreError,
        >(StoreError::Corrupt),
{
}

/// A page is read while its generation is kept as it was, and before its token has run out by the
/// clock as well as by the latest time that the store has seen.
pub proof fn pages_are_read_in_time(
    start: PageStart,
    pinned: Option<PinnedGeneration>,
    now: Timestamp,
    result: Result<Timestamp, StoreError>,
)
    requires
        call_ensures(admit_page, (&start, pinned, now), result),
    ensures
        result is Ok <==> {
            &&& start.generation <= i64::MAX
            &&& start.checkpoint <= i64::MAX
            &&& pinned matches Some(pinned)
            &&& pinned.checkpoint == start.checkpoint
            &&& 0 <= pinned.floor_nanos < 1_000_000_000
            &&& start.expires_seconds matches Some(expires) ==> now.seconds < expires
                && pinned.floor_seconds < expires
        },
        result matches Ok(effective) ==> {
            let floor = pinned->Some_0;
            &&& effective == now || (effective.seconds == floor.floor_seconds && effective.nanos
                == floor.floor_nanos)
            &&& effective.seconds > now.seconds || (effective.seconds == now.seconds
                && effective.nanos >= now.nanos)
            &&& effective.seconds > floor.floor_seconds || (effective.seconds
                == floor.floor_seconds && effective.nanos >= floor.floor_nanos)
        },
        start.generation <= i64::MAX && pinned is None ==> result == Err::<Timestamp, StoreError>(
            StoreError::ProjectionStale,
        ),
        start.generation > i64::MAX ==> result == Err::<Timestamp, StoreError>(StoreError::Invalid),
{
}

/// A page holds the rows that were found, as many as asked for; where there are more, its token
/// goes on behind the last one, for another minute.
pub proof fn pages_hold_what_was_found(
    key: [u8; 32],
    query: ReadProjection,
    start: PageStart,
    effective: Timestamp,
    rows: Vec<PageRow>,
    source_head: i64,
    result: Result<ProjectionPage, StoreError>,
    index: int,
)
    requires
        call_ensures(finish_page, (&key, &query, &start, effective, rows, source_head), result),
    ensures
        result is Ok <==> source_head >= 0 && (rows@.len() > query.page_size ==> query.page_size
            > 0 && effective.seconds + 60 <= i64::MAX),
        result matches Ok(page) ==> {
            &&& page.generation == start.generation
            &&& start.checkpoint == 0 ==> page.checkpoint_position is None
            &&& start.checkpoint > 0 ==> page.checkpoint_position == Some(start.checkpoint)
            &&& source_head == 0 ==> page.source_head_position is None
            &&& source_head > 0 ==> (page.source_head_position matches Some(head) && head
                == source_head)
            &&& page.items@.len() == if rows@.len() <= query.page_size {
                rows@.len() as int
            } else {
                query.page_size as int
            }
            &&& 0 <= index < page.items@.len() ==> page.items@[index] == rows@[index]
            &&& page.next_page_token is Some <==> rows@.len() > query.page_size
            &&& page.next_page_token matches Some(wire) ==> {
                let last = rows@[query.page_size - 1];
                &&& wire.coordinates.session_id == query.session_id
                &&& wire.coordinates.view == query.view
                &&& wire.coordinates.generation == start.generation
                &&& wire.coordinates.checkpoint == start.checkpoint
                &&& wire.coordinates.expires_seconds == effective.seconds + 60
                &&& wire.coordinates.page_size == query.page_size
                &&& wire.coordinates.last_sort_key@ == last.sort_key@
                &&& wire.coordinates.last_item_key@ == last.item_key@
                &&& is_signed_under(
                    key@,
                    query.consumer@,
                    wire.coordinates,
                    wire.signature@,
                )
            }
        },
        result matches Err(error) ==> error == StoreError::Corrupt,
{
}

/// The token of a page is taken where it was issued, and leads on behind the last row of the page.
pub proof fn pages_follow_one_another(
    key: [u8; 32],
    consumer: &str,
    query: ReadProjection,
    start: PageStart,
    effective: Timestamp,
    rows: Vec<PageRow>,
    source_head: i64,
    page: ProjectionPage,
    next: Result<PageStart, StoreError>,
)
    requires
        call_ensures(
            finish_page,
            (&key, &query, &start, effective, rows, source_head),
            Ok::<ProjectionPage, StoreError>(page),
        ),
        call_ensures(continue_page, (&key, consumer, &query, page.next_page_token), next),
        consumer@ == query.consumer@,
    ensures
        next is Ok <==> rows@.len() > query.page_size,
        next matches Ok(following) ==> {
            let last = page.items@[page.items@.len() - 1];
            &&& page.items@.len() == query.page_size
            &&& following.generation == start.generation
            &&& following.checkpoint == start.checkpoint
            &&& following.last_sort_key@ == last.sort_key@
            &&& following.last_item_key@ == last.item_key@
        },
{
}

/// How many generations have a greater number.
pub open spec fn how_many_above(generations: Seq<Generation>, number: u64) -> nat
    decreases generations.len(),
{
    if generations.len() == 0 {
        0
    } else if generations[generations.len() - 1].generation > number {
        how_many_above(generations.take(generations.len() - 1), number) + 1
    } else {
        how_many_above(generations.take(generations.len() - 1), number)
    }
}

proof fn lemma_above(generations: Seq<Generation>, number: u64)
    ensures
        newer(generations, number) == how_many_above(generations, number),
    decreases generations.len(),
{
    if generations.len() > 0 {
        assert(generations.drop_last() =~= generations.take(generations.len() - 1));
        lemma_above(generations.drop_last(), number);
    }
}

proof fn lemma_greatest(generations: Seq<Generation>, index: int)
    ensures
        0 <= index < generations.len() ==> generations[index].generation <= greatest(generations),
        generations.len() == 0 ==> greatest(generations) == 0,
        generations.len() > 0 && greatest(generations) > 0 ==> exists|i: int|
            0 <= i < generations.len() && (#[trigger] generations[i]).generation == greatest(
                generations,
            ),
    decreases generations.len(),
{
    if generations.len() > 0 {
        let earlier = generations.drop_last();
        lemma_greatest(earlier, index);
        if greatest(generations) > 0 {
            if generations.last().generation == greatest(generations) {
                assert(generations[generations.len() - 1].generation == greatest(generations));
            } else {
                let i = choose|i: int|
                    0 <= i < earlier.len() && (#[trigger] earlier[i]).generation == greatest(
                        earlier,
                    );
                assert(generations[i].generation == greatest(generations));
            }
        }
    }
}

proof fn lemma_kept(all: Seq<Generation>, stays: spec_fn(Generation) -> bool)
    ensures
        forall|i: int|
            0 <= i < all.filter(stays).len() ==> stays(#[trigger] all.filter(stays)[i])
                && all.contains(all.filter(stays)[i]),
        forall|i: int|
            0 <= i < all.len() && stays(#[trigger] all[i]) ==> all.filter(stays).contains(all[i]),
    decreases all.len(),
{
    reveal(Seq::filter);
    if all.len() > 0 {
        let earlier = all.drop_last();
        lemma_kept(earlier, stays);
        let kept = all.filter(stays);
        let before = earlier.filter(stays);
        assert forall|i: int| 0 <= i < kept.len() implies stays(#[trigger] kept[i])
            && all.contains(kept[i]) by {
            if i < before.len() {
                assert(kept[i] == before[i]);
                assert(earlier.contains(before[i]));
                let j = choose|j: int| 0 <= j < earlier.len() && earlier[j] == before[i];
                assert(all[j] == kept[i]);
            } else {
                assert(kept[i] == all[all.len() - 1]);
            }
        }
        assert forall|i: int| 0 <= i < all.len() && stays(#[trigger] all[i]) implies kept.contains(
            all[i],
        ) by {
            if i < earlier.len() {
                assert(earlier[i] == all[i]);
                assert(before.contains(earlier[i]));
                let j = choose|j: int| 0 <= j < before.len() && before[j] == earlier[i];
                assert(kept[j] == all[i]);
            } else {
                assert(kept[kept.len() - 1] == all[i]);
            }
        }
    }
}

/// The same generation, no longer the one that is published.
pub open spec fn is_retired_from(before: Generation, after: Generation) -> bool {
    &&& after.generation == before.generation
    &&& after.checkpoint == before.checkpoint
    &&& after.created_seconds == before.created_seconds
    &&& before.state is Published ==> after.state is Retired
    &&& !(before.state is Published) ==> after.state == before.state
}

proof fn lemma_shifted(generations: Seq<Generation>, all: Seq<Generation>, number: u64)
    requires
        all.len() == generations.len() + 1,
        forall|i: int|
            0 <= i < generations.len() ==> (#[trigger] all[i]).generation
                == generations[i].generation,
        all[generations.len() as int].generation > number,
    ensures
        how_many_above(all, number) == how_many_above(generations, number) + 1,
{
    lemma_same_numbers(all.take(generations.len() as int), generations, number);
    assert(all.take(all.len() - 1) =~= all.take(generations.len() as int));
}

proof fn lemma_same_numbers(left: Seq<Generation>, right: Seq<Generation>, number: u64)
    requires
        left.len() == right.len(),
        forall|i: int|
            0 <= i < left.len() ==> (#[trigger] left[i]).generation == right[i].generation,
    ensures
        how_many_above(left, number) == how_many_above(right, number),
    decreases left.len(),
{
    if left.len() > 0 {
        let shorter = left.take(left.len() - 1);
        assert forall|i: int| 0 <= i < shorter.len() implies (#[trigger] shorter[i]).generation
            == right.take(right.len() - 1)[i].generation by {
            assert(shorter[i] == left[i]);
        }
        lemma_same_numbers(shorter, right.take(right.len() - 1), number);
        assert(left[left.len() - 1].generation == right[right.len() - 1].generation);
    }
}

/// What is published is a new generation with a number of its own, above all others; the one
/// before it is retired. A generation goes only when it is retired, old, and seven others and the
/// new one have come after it.
pub proof fn generations_follow_one_another(
    session_id: SessionId,
    generations: Vec<Generation>,
    checkpoint: u64,
    now_seconds: i64,
    before: i64,
    index: int,
    publication: Publication,
)
    requires
        call_ensures(
            publish_generation,
            (session_id, &generations, checkpoint, now_seconds, before),
            Ok::<Publication, StoreError>(publication),
        ),
    ensures
        publication.head.checkpoint == checkpoint,
        publication.rebuild.session_id == session_id,
        publication.rebuild.generation == publication.head.generation,
        checkpoint == 0 ==> publication.rebuild.checkpoint_position is None,
        checkpoint > 0 ==> publication.rebuild.checkpoint_position == Some(checkpoint),
        generations@.len() == 0 ==> publication.head.generation == 1,
        publication.head.generation == 1 || exists|i: int|
            0 <= i < generations@.len() && (#[trigger] generations@[i]).generation + 1
                == publication.head.generation,
        publication.generations@.contains(
            (Generation {
                generation: publication.head.generation,
                state: GenerationState::Published,
                checkpoint,
                created_seconds: now_seconds,
            }),
        ),
        0 <= index < generations@.len() ==> {
            let old = generations@[index];
            let goes = (old.state is Published || old.state is Retired) && old.created_seconds
                <= before && how_many_above(generations@, old.generation) >= 7;
            &&& old.generation < publication.head.generation
            &&& !goes ==> exists|j: int|
                0 <= j < publication.generations@.len() && is_retired_from(
                    old,
                    #[trigger] publication.generations@[j],
                )
        },
        0 <= index < publication.generations@.len() ==> {
            let kept = publication.generations@[index];
            ||| kept.generation == publication.head.generation && kept.state is Published
            ||| !(kept.state is Published) && !(kept.state is Retired && kept.created_seconds
                <= before && how_many_above(generations@, kept.generation) >= 7) && exists|i: int|
                0 <= i < generations@.len() && is_retired_from(#[trigger] generations@[i], kept)
        },
{
    let all = with_published(generations@, checkpoint, now_seconds);
    let stays = |kept: Generation| !dropped(all, kept, before);
    let count = generations@.len() as int;
    lemma_kept(all, stays);
    lemma_greatest(generations@, index);
    assert forall|i: int| 0 <= i < count implies is_retired_from(
        generations@[i],
        #[trigger] all[i],
    ) by {
        assert(all[i] == superseded(generations@[i]));
    }
    let newest = all[count];
    lemma_above(all, newest.generation);
    assert(how_many_above(all, newest.generation) >= 0);
    assert(stays(newest));
    assert(all.filter(stays).contains(all[count]));
    assert(publication.generations@ == all.filter(stays));
    if 0 <= index < count {
        let old = generations@[index];
        lemma_above(all, old.generation);
        lemma_shifted(generations@, all, old.generation);
        let goes = (old.state is Published || old.state is Retired) && old.created_seconds <= before
            && how_many_above(generations@, old.generation) >= 7;
        if !goes {
            assert(stays(all[index]));
            assert(all.filter(stays).contains(all[index]));
            let j = choose|j: int|
                0 <= j < all.filter(stays).len() && all.filter(stays)[j] == all[index];
            assert(is_retired_from(old, publication.generations@[j]));
        }
    }
    if 0 <= index < publication.generations@.len() {
        let kept = publication.generations@[index];
        assert(kept == all.filter(stays)[index]);
        assert(stays(kept) && all.contains(kept));
        let i = choose|i: int| 0 <= i < all.len() && all[i] == kept;
        if i < count {
            lemma_greatest(generations@, i);
            lemma_above(all, kept.generation);
            lemma_shifted(generations@, all, kept.generation);
            assert(is_retired_from(generations@[i], all[i]));
        }
    }
}

/// A publication fails only where a number no longer fits into its column.
pub proof fn publications_fail_at_the_limit(
    session_id: SessionId,
    generations: Vec<Generation>,
    checkpoint: u64,
    now_seconds: i64,
    before: i64,
    result: Result<Publication, StoreError>,
)
    requires
        call_ensures(
            publish_generation,
            (session_id, &generations, checkpoint, now_seconds, before),
            result,
        ),
    ensures
        checkpoint > i64::MAX ==> result == Err::<Publication, StoreError>(StoreError::Corrupt),
        checkpoint <= i64::MAX ==> {
            &&& result is Err <==> exists|i: int|
                0 <= i < generations@.len() && (#[trigger] generations@[i]).generation >= i64::MAX
            &&& result matches Err(error) ==> error == StoreError::Unavailable
        },
{
    lemma_greatest(generations@, 0);
    if checkpoint <= i64::MAX {
        if exists|i: int|
            0 <= i < generations@.len() && (#[trigger] generations@[i]).generation >= i64::MAX {
            let i = choose|i: int|
                0 <= i < generations@.len() && (#[trigger] generations@[i]).generation >= i64::MAX;
            lemma_greatest(generations@, i);
        }
    }
}

} // verus!
