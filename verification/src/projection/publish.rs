//! The generations of a projection: publishing one, retiring the one before it, and dropping old
//! ones.

use vstd::prelude::*;

use crate::error::StoreError;
use crate::ids::SessionId;
use crate::projection::ProjectionView;
use crate::projection::fold::{
    checkpoint_position, position_of, seen_after, ProjectionEvent, ProjectionRebuild, RowSource,
};

verus! {

/// How many generations are kept however old they are.
pub const KEPT_GENERATIONS: usize = 8;

/// Where a generation stands.
#[derive(Clone, Copy, PartialEq, Eq, Debug, Structural)]
pub enum GenerationState {
    Building,
    Published,
    Retired,
}

/// A generation of the projection of a session.
#[derive(Clone, Copy, PartialEq, Eq, Debug, Structural)]
pub struct Generation {
    pub generation: u64,
    pub state: GenerationState,
    pub checkpoint: u64,
    pub created_seconds: i64,
}

/// The generation that pages are read from, and the last event that it stands on.
#[derive(Clone, Copy, PartialEq, Eq, Debug, Structural)]
pub struct ProjectionHead {
    pub generation: u64,
    pub checkpoint: u64,
}

/// The greatest generation; zero where there is none.
pub open spec fn greatest(generations: Seq<Generation>) -> u64
    decreases generations.len(),
{
    if generations.len() == 0 {
        0
    } else if generations.last().generation > greatest(generations.drop_last()) {
        generations.last().generation
    } else {
        greatest(generations.drop_last())
    }
}

/// How many of the generations are newer than the given one.
pub open spec fn newer(generations: Seq<Generation>, generation: u64) -> nat
    decreases generations.len(),
{
    if generations.len() == 0 {
        0
    } else {
        newer(generations.drop_last(), generation) + if generations.last().generation > generation {
            1nat
        } else {
            0
        }
    }
}

/// A generation after another was published: a published one is retired.
pub open spec fn superseded(generation: Generation) -> Generation {
    if generation.state == GenerationState::Published {
        Generation { state: GenerationState::Retired, ..generation }
    } else {
        generation
    }
}

/// The generations right after one was published over them.
pub open spec fn with_published(
    generations: Seq<Generation>,
    checkpoint: u64,
    now_seconds: i64,
) -> Seq<Generation> {
    generations.map_values(|generation: Generation| superseded(generation)).push(
        Generation {
            generation: (greatest(generations) + 1) as u64,
            state: GenerationState::Published,
            checkpoint,
            created_seconds: now_seconds,
        },
    )
}

/// Whether a generation is dropped: it is retired, old, and not among the newest.
pub open spec fn dropped(all: Seq<Generation>, generation: Generation, before: i64) -> bool {
    &&& generation.state == GenerationState::Retired
    &&& generation.created_seconds <= before
    &&& newer(all, generation.generation) >= KEPT_GENERATIONS
}

/// The generations that stay.
pub open spec fn remaining(all: Seq<Generation>, before: i64) -> Seq<Generation> {
    all.filter(|kept: Generation| !dropped(all, kept, before))
}

/// A generation that was published.
pub struct Publication {
    pub generations: Vec<Generation>,
    pub head: ProjectionHead,
    pub rebuild: ProjectionRebuild,
}

/// Why no generation can be published: the numbers have run out.
pub open spec fn publication_obstacle(generations: Seq<Generation>, checkpoint: u64) -> Option<
    StoreError,
> {
    if checkpoint > i64::MAX {
        Some(StoreError::Corrupt)
    } else if greatest(generations) >= i64::MAX {
        Some(StoreError::Unavailable)
    } else {
        None
    }
}

fn find_greatest(generations: &Vec<Generation>) -> (found: u64)
    ensures
        found == greatest(generations@),
{
    let mut found: u64 = 0;
    let mut index: usize = 0;
    while index < generations.len()
        invariant
            index <= generations.len(),
            found == greatest(generations@.take(index as int)),
        decreases generations.len() - index,
    {
        assert(generations@.take(index + 1).drop_last() =~= generations@.take(index as int));
        if generations[index].generation > found {
            found = generations[index].generation;
        }
        index = index + 1;
    }
    assert(generations@.take(index as int) =~= generations@);
    found
}

fn count_newer(generations: &Vec<Generation>, generation: u64) -> (count: usize)
    ensures
        count == newer(generations@, generation),
{
    let mut count: usize = 0;
    let mut index: usize = 0;
    while index < generations.len()
        invariant
            index <= generations.len(),
            count <= index,
            count == newer(generations@.take(index as int), generation),
        decreases generations.len() - index,
    {
        assert(generations@.take(index + 1).drop_last() =~= generations@.take(index as int));
        if generations[index].generation > generation {
            count = count + 1;
        }
        index = index + 1;
    }
    assert(generations@.take(index as int) =~= generations@);
    count
}

fn drop_old(all: &Vec<Generation>, before: i64) -> (kept: Vec<Generation>)
    ensures
        kept@ == remaining(all@, before),
{
    let ghost stays = |kept: Generation| !dropped(all@, kept, before);
    let mut kept: Vec<Generation> = Vec::new();
    let mut index: usize = 0;
    proof {
        reveal(Seq::filter);
    }
    while index < all.len()
        invariant
            index <= all.len(),
            stays == (|kept: Generation| !dropped(all@, kept, before)),
            kept@ == all@.take(index as int).filter(stays),
        decreases all.len() - index,
    {
        let generation: Generation = all[index];
        proof {
            reveal(Seq::filter);
            let next = all@.take(index + 1);
            assert(next.drop_last() =~= all@.take(index as int));
            assert(next.last() == generation);
        }
        let gone: bool = generation.state == GenerationState::Retired && generation.created_seconds
            <= before && count_newer(all, generation.generation) >= KEPT_GENERATIONS;
        assert(stays(generation) == !gone);
        if !gone {
            kept.push(generation);
        }
        index = index + 1;
    }
    assert(all@.take(index as int) =~= all@);
    kept
}

/// Publishes what was rebuilt as the next generation: the one that was published is retired, the
/// head names the new one, and generations that are old and not among the newest are dropped.
///
/// `generations` are those of the session, and `before` is the second up to which one counts as
/// old.
pub fn publish_generation(
    session_id: SessionId,
    generations: &Vec<Generation>,
    checkpoint: u64,
    now_seconds: i64,
    before: i64,
) -> (result: Result<Publication, StoreError>)
    ensures
        match publication_obstacle(generations@, checkpoint) {
            Some(error) => result matches Err(given) && given == error,
            None => {
                let all = with_published(generations@, checkpoint, now_seconds);
                let generation = (greatest(generations@) + 1) as u64;
                &&& result matches Ok(publication)
                &&& publication.generations@ == remaining(all, before)
                &&& publication.head == (ProjectionHead { generation, checkpoint })
                &&& publication.rebuild == (ProjectionRebuild {
                    session_id,
                    generation,
                    checkpoint_position: checkpoint_position(checkpoint),
                })
            },
        },
{
    if checkpoint > i64::MAX as u64 {
        return Err(StoreError::Corrupt);
    }
    let last: u64 = find_greatest(generations);
    if last >= i64::MAX as u64 {
        return Err(StoreError::Unavailable);
    }
    let generation: u64 = last + 1;
    let mut all: Vec<Generation> = Vec::new();
    let mut index: usize = 0;
    while index < generations.len()
        invariant
            index <= generations.len(),
            all.len() == index,
            forall|i: int| 0 <= i < index ==> #[trigger] all[i] == superseded(generations[i]),
        decreases generations.len() - index,
    {
        let mut next: Generation = generations[index];
        if next.state == GenerationState::Published {
            next.state = GenerationState::Retired;
        }
        all.push(next);
        index = index + 1;
    }
    all.push(
        Generation {
            generation,
            state: GenerationState::Published,
            checkpoint,
            created_seconds: now_seconds,
        },
    );
    assert(all@ =~= with_published(generations@, checkpoint, now_seconds));
    let kept: Vec<Generation> = drop_old(&all, before);
    Ok(
        Publication {
            generations: kept,
            head: ProjectionHead { generation, checkpoint },
            rebuild: ProjectionRebuild {
                session_id,
                generation,
                checkpoint_position: position_of(checkpoint),
            },
        },
    )
}

/// What is kept of the projection of a session: its generations, the head, and the rows of each
/// generation.
pub struct ProjectionTables {
    pub generations: Seq<Generation>,
    pub head: Option<ProjectionHead>,
    pub rows: Map<u64, Map<(ProjectionView, Seq<char>), RowSource>>,
}

/// The rows that the events of a session amount to, with the row that tells the capacity.
pub open spec fn folded_rows(session_id: SessionId, events: Seq<ProjectionEvent>) -> Map<
    (ProjectionView, Seq<char>),
    RowSource,
> {
    seen_after(session_id, events, events.len())->Some_0.rows.insert(
        (ProjectionView::Capacity, "session"@),
        RowSource::CapacityMetrics,
    )
}

/// Whether the events can be folded, and a generation can be published with them.
pub open spec fn publishable(
    tables: ProjectionTables,
    session_id: SessionId,
    events: Seq<ProjectionEvent>,
) -> bool {
    &&& seen_after(session_id, events, events.len()) is Some
    &&& events.len() <= i64::MAX
    &&& publication_obstacle(tables.generations, events.len() as u64) is None
}

/// What is kept of a projection after it was rebuilt from the events: nothing changes where the
/// events cannot be folded, or no generation can be published.
pub open spec fn rebuilt_tables(
    tables: ProjectionTables,
    session_id: SessionId,
    events: Seq<ProjectionEvent>,
    now_seconds: i64,
    before: i64,
) -> ProjectionTables {
    let checkpoint = events.len() as u64;
    if !publishable(tables, session_id, events) {
        tables
    } else {
        let generation = (greatest(tables.generations) + 1) as u64;
        let generations = remaining(
            with_published(tables.generations, checkpoint, now_seconds),
            before,
        );
        ProjectionTables {
            generations,
            head: Some(ProjectionHead { generation, checkpoint }),
            rows: tables.rows.insert(generation, folded_rows(session_id, events)).restrict(
                Set::new(
                    |kept: u64|
                        exists|i: int|
                            0 <= i < generations.len() && (#[trigger] generations[i]).generation
                                == kept,
                ),
            ),
        }
    }
}

proof fn lemma_greatest_is_greatest(generations: Seq<Generation>, index: int)
    requires
        0 <= index < generations.len(),
    ensures
        generations[index].generation <= greatest(generations),
    decreases generations.len(),
{
    if index < generations.len() - 1 {
        lemma_greatest_is_greatest(generations.drop_last(), index);
    }
}

proof fn lemma_kept_were_there(all: Seq<Generation>, stays: spec_fn(Generation) -> bool)
    ensures
        forall|i: int|
            0 <= i < all.filter(stays).len() ==> all.contains(#[trigger] all.filter(stays)[i]),
        forall|i: int|
            0 <= i < all.len() && stays(#[trigger] all[i]) ==> all.filter(stays).contains(all[i]),
    decreases all.len(),
{
    reveal(Seq::filter);
    if all.len() > 0 {
        let before = all.drop_last();
        let kept = before.filter(stays);
        lemma_kept_were_there(before, stays);
        assert forall|i: int| 0 <= i < all.filter(stays).len() implies all.contains(
            #[trigger] all.filter(stays)[i],
        ) by {
            if i < kept.len() {
                assert(before.contains(kept[i]));
                let j = choose|j: int| 0 <= j < before.len() && before[j] == kept[i];
                assert(all[j] == all.filter(stays)[i]);
            } else {
                assert(all[all.len() - 1] == all.filter(stays)[i]);
            }
        }
        assert forall|i: int| 0 <= i < all.len() && stays(#[trigger] all[i]) implies all.filter(
            stays,
        ).contains(all[i]) by {
            if i < before.len() {
                assert(stays(before[i]));
                let j = choose|j: int| 0 <= j < kept.len() && kept[j] == before[i];
                assert(all.filter(stays)[j] == all[i]);
            } else {
                assert(all.filter(stays)[kept.len() as int] == all[i]);
            }
        }
    }
}

/// A projection is published as a whole or not at all.
///
/// Where the events cannot be folded, or the numbers have run out, generations, head and rows are
/// as before. Else the head names the generation after the greatest one and the number of events
/// that were folded; the rows of that generation are the fold of exactly these events; and it
/// alone is published.
pub proof fn publication_is_atomic(
    tables: ProjectionTables,
    session_id: SessionId,
    events: Seq<ProjectionEvent>,
    now_seconds: i64,
    before: i64,
)
    ensures
        ({
            let after = rebuilt_tables(tables, session_id, events, now_seconds, before);
            let generation = (greatest(tables.generations) + 1) as u64;
            if !publishable(tables, session_id, events) {
                after == tables
            } else {
                &&& after.head == Some(
                    ProjectionHead { generation, checkpoint: events.len() as u64 },
                )
                &&& after.rows.contains_key(generation)
                &&& after.rows[generation] == folded_rows(session_id, events)
                &&& exists|i: int|
                    0 <= i < after.generations.len() && (
                    #[trigger] after.generations[i]).generation == generation
                        && after.generations[i].state == GenerationState::Published
                        && after.generations[i].checkpoint == events.len()
                &&& forall|i: int|
                    0 <= i < after.generations.len() && (#[trigger] after.generations[i]).state
                        == GenerationState::Published ==> after.generations[i].generation
                        == generation
                &&& forall|i: int|
                    0 <= i < tables.generations.len() ==> (
                    #[trigger] tables.generations[i]).generation < generation
            }
        }),
{
    let after = rebuilt_tables(tables, session_id, events, now_seconds, before);
    if publishable(tables, session_id, events) {
        let checkpoint = events.len() as u64;
        let generation = (greatest(tables.generations) + 1) as u64;
        let all = with_published(tables.generations, checkpoint, now_seconds);
        let last = all.len() - 1;
        let stays = |kept: Generation| !dropped(all, kept, before);
        assert(after.generations == all.filter(stays));
        lemma_kept_were_there(all, stays);
        assert(stays(all[last]));
        assert(after.generations.contains(all[last]));
        let at = choose|i: int|
            0 <= i < after.generations.len() && after.generations[i] == all[last];
        assert(after.generations[at].generation == generation);
        assert forall|i: int|
            0 <= i < after.generations.len() && (#[trigger] after.generations[i]).state
                == GenerationState::Published implies after.generations[i].generation
            == generation by {
            assert(all.contains(all.filter(stays)[i]));
            let j = choose|j: int| 0 <= j < all.len() && all[j] == after.generations[i];
            if j < last {
                assert(all[j] == superseded(tables.generations[j]));
            }
        }
        assert forall|i: int| 0 <= i < tables.generations.len() implies (
        #[trigger] tables.generations[i]).generation < generation by {
            lemma_greatest_is_greatest(tables.generations, i);
        }
    }
}

} // verus!
