//! What the pages of a read model show of it: every row once, in order.

use crate::projection::page::{
    page_completes, page_made, start_after, PageRow, PageStart, ProjectionPage,
    ReadProjection,
};
use crate::time::Timestamp;
use vstd::prelude::*;

verus! {

/// Whether a text stands before another, character by character.
///
/// The bytes of texts in UTF-8 stand in the same order.
pub open spec fn text_before(one: Seq<char>, other: Seq<char>) -> bool
    decreases one.len(),
{
    if other.len() == 0 {
        false
    } else if one.len() == 0 {
        true
    } else if one[0] != other[0] {
        (one[0] as u32) < (other[0] as u32)
    } else {
        text_before(one.skip(1), other.skip(1))
    }
}

/// Whether a place in a read model comes before another: by the sort key, then by the item key.
pub open spec fn place_before(one: (Seq<char>, Seq<char>), other: (Seq<char>, Seq<char>)) -> bool {
    text_before(one.0, other.0) || (one.0 == other.0 && text_before(one.1, other.1))
}

/// The place of a row.
pub open spec fn place_of(row: PageRow) -> (Seq<char>, Seq<char>) {
    (row.sort_key@, row.item_key@)
}

/// The place after which a page begins.
pub open spec fn start_place(start: PageStart) -> (Seq<char>, Seq<char>) {
    (start.last_sort_key@, start.last_item_key@)
}

/// The place before every row.
pub open spec fn first_place() -> (Seq<char>, Seq<char>) {
    (Seq::empty(), Seq::empty())
}

/// Whether rows are those of a read model in order: no two share a place, and none has both keys
/// empty.
pub open spec fn in_order(view: Seq<PageRow>) -> bool {
    &&& forall|i: int, j: int|
        0 <= i < j < view.len() ==> place_before(
            place_of(#[trigger] view[i]),
            place_of(#[trigger] view[j]),
        )
    &&& forall|i: int|
        0 <= i < view.len() ==> place_before(first_place(), place_of(#[trigger] view[i]))
}

/// The rows of a read model after a place, in order.
pub open spec fn rows_after(view: Seq<PageRow>, place: (Seq<char>, Seq<char>)) -> Seq<PageRow> {
    view.filter(|row: PageRow| place_before(place, place_of(row)))
}

/// The rows that are found for a page: those after its start, one more than fit at the most.
pub open spec fn rows_found(
    view: Seq<PageRow>,
    start: PageStart,
    query: ReadProjection,
) -> Seq<PageRow> {
    let rows = rows_after(view, start_place(start));
    if rows.len() > query.page_size + 1 {
        rows.take(query.page_size + 1)
    } else {
        rows
    }
}

/// The reading of a page.
pub struct PageRead {
    pub start: PageStart,
    pub effective: Timestamp,
    pub source_head: i64,
    pub page: ProjectionPage,
}

/// Whether a page was read from a read model.
pub open spec fn read_from(
    key: Seq<u8>,
    query: ReadProjection,
    view: Seq<PageRow>,
    read: PageRead,
) -> bool {
    let found = rows_found(view, read.start, query);
    &&& page_completes(query, read.effective, found.len(), read.source_head)
    &&& page_made(key, query, read.start, read.effective, found, read.source_head, read.page)
}

proof fn lemma_text_order(one: Seq<char>, two: Seq<char>, three: Seq<char>)
    ensures
        !text_before(one, one),
        text_before(one, two) && text_before(two, three) ==> text_before(one, three),
    decreases one.len(),
{
    if one.len() > 0 {
        lemma_text_order(one.skip(1), two.skip(1), three.skip(1));
    }
}

proof fn lemma_place_order(
    one: (Seq<char>, Seq<char>),
    two: (Seq<char>, Seq<char>),
    three: (Seq<char>, Seq<char>),
)
    ensures
        !place_before(one, one),
        place_before(one, two) && place_before(two, three) ==> place_before(one, three),
{
    lemma_text_order(one.0, two.0, three.0);
    lemma_text_order(one.1, two.1, three.1);
}

/// Rows of which only the last ones pass: those are what a filter keeps.
proof fn lemma_filter_tail(rows: Seq<PageRow>, passes: spec_fn(PageRow) -> bool, from: int)
    requires
        0 <= from <= rows.len(),
        forall|i: int| 0 <= i < rows.len() ==> passes(#[trigger] rows[i]) == (i >= from),
    ensures
        rows.filter(passes) == rows.skip(from),
    decreases rows.len(),
{
    reveal(Seq::filter);
    if rows.len() > 0 {
        let rest = rows.drop_last();
        assert forall|i: int| 0 <= i < rest.len() implies passes(#[trigger] rest[i]) == (i
            >= from) by {
            assert(rest[i] == rows[i]);
        }
        assert(passes(rows[rows.len() - 1]) == (rows.len() - 1 >= from));
        if from == rows.len() {
            lemma_filter_tail(rest, passes, from - 1);
            assert(rows.filter(passes) =~= rows.skip(from));
        } else {
            lemma_filter_tail(rest, passes, from);
            assert(rows.filter(passes) =~= rows.skip(from));
        }
    } else {
        assert(rows.filter(passes) =~= rows.skip(from));
    }
}

/// The rows after the place of a row are the ones that follow it; after the first place, all.
proof fn lemma_rows_after(view: Seq<PageRow>, count: int)
    requires
        in_order(view),
        0 <= count <= view.len(),
    ensures
        rows_after(
            view,
            if count == 0 {
                first_place()
            } else {
                place_of(view[count - 1])
            },
        ) == view.skip(count),
{
    let place = if count == 0 {
        first_place()
    } else {
        place_of(view[count - 1])
    };
    let passes = |row: PageRow| place_before(place, place_of(row));
    assert forall|i: int| 0 <= i < view.len() implies passes(#[trigger] view[i]) == (i
        >= count) by {
        if count > 0 && i < count {
            lemma_place_order(place, place_of(view[i]), place);
        }
    }
    lemma_filter_tail(view, passes, count);
}

/// A page that continues another shows the same generation and checkpoint, and its rows are rows
/// of that generation, each after every row of the page before.
///
/// `views` are the rows of the read model in each generation that is kept.
pub proof fn continued_pages_stay_pinned(
    key: Seq<u8>,
    query: ReadProjection,
    views: Map<u64, Seq<PageRow>>,
    one: PageRead,
    other: PageRead,
)
    requires
        views.contains_key(one.start.generation),
        in_order(views[one.start.generation]),
        read_from(key, query, views[one.start.generation], one),
        one.page.next_page_token matches Some(wire) && other.start == start_after(wire),
        read_from(key, query, views[other.start.generation], other),
    ensures
        other.page.generation == one.page.generation,
        other.page.checkpoint_position == one.page.checkpoint_position,
        forall|i: int|
            0 <= i < other.page.items@.len() ==> views[one.page.generation].contains(
                #[trigger] other.page.items@[i],
            ),
        forall|i: int, j: int|
            0 <= i < one.page.items@.len() && 0 <= j < other.page.items@.len() ==> place_before(
                place_of(#[trigger] one.page.items@[i]),
                place_of(#[trigger] other.page.items@[j]),
            ),
{
    let view = views[one.start.generation];
    let size = query.page_size as int;
    let from = lemma_split(view, start_place(one.start));
    let last = view[from + size - 1];
    assert(one.page.items@[size - 1] == last);
    assert(start_place(other.start) == place_of(last));
    lemma_rows_after(view, from + size);
    assert forall|i: int| 0 <= i < other.page.items@.len() implies view.contains(
        #[trigger] other.page.items@[i],
    ) by {
        assert(other.page.items@[i] == view[from + size + i]);
    }
    assert forall|i: int, j: int|
        0 <= i < one.page.items@.len() && 0 <= j < other.page.items@.len() implies place_before(
        place_of(#[trigger] one.page.items@[i]),
        place_of(#[trigger] other.page.items@[j]),
    ) by {
        assert(one.page.items@[i] == view[from + i]);
        assert(other.page.items@[j] == view[from + size + j]);
    }
}

/// The rows after a place are the last ones of a read model in order, whatever the place.
proof fn lemma_split(view: Seq<PageRow>, place: (Seq<char>, Seq<char>)) -> (from: int)
    requires
        in_order(view),
    ensures
        0 <= from <= view.len(),
        rows_after(view, place) == view.skip(from),
{
    let passes = |row: PageRow| place_before(place, place_of(row));
    if exists|i: int| 0 <= i < view.len() && passes(#[trigger] view[i]) {
        let from = lemma_first(view, passes);
        assert forall|i: int| 0 <= i < view.len() implies passes(#[trigger] view[i]) == (i
            >= from) by {
            if i > from {
                assert(place_before(place_of(view[from]), place_of(view[i])));
                lemma_place_order(place, place_of(view[from]), place_of(view[i]));
            }
        }
        lemma_filter_tail(view, passes, from);
        from
    } else {
        lemma_filter_tail(view, passes, view.len() as int);
        view.len() as int
    }
}

/// Where some row passes, there is a first one.
proof fn lemma_first(rows: Seq<PageRow>, passes: spec_fn(PageRow) -> bool) -> (first: int)
    requires
        exists|i: int| 0 <= i < rows.len() && passes(#[trigger] rows[i]),
    ensures
        0 <= first < rows.len(),
        passes(rows[first]),
        forall|i: int| 0 <= i < first ==> !passes(#[trigger] rows[i]),
    decreases rows.len(),
{
    let rest = rows.drop_last();
    if exists|i: int| 0 <= i < rest.len() && passes(#[trigger] rest[i]) {
        let first = lemma_first(rest, passes);
        assert(rest[first] == rows[first]);
        assert forall|i: int| 0 <= i < first implies !passes(#[trigger] rows[i]) by {
            assert(rest[i] == rows[i]);
        }
        first
    } else {
        let i = choose|i: int| 0 <= i < rows.len() && passes(#[trigger] rows[i]);
        assert(i == rows.len() - 1) by {
            if i < rest.len() {
                assert(passes(rest[i]));
            }
        }
        assert forall|j: int| 0 <= j < i implies !passes(#[trigger] rows[j]) by {
            assert(rest[j] == rows[j]);
        }
        i
    }
}

/// The rows of the first pages, one page after the other.
pub open spec fn rows_read(reads: Seq<PageRead>, count: int) -> Seq<PageRow>
    decreases count,
{
    if count <= 0 {
        Seq::empty()
    } else {
        rows_read(reads, count - 1) + reads[count - 1].page.items@
    }
}

/// Whether pages follow one another from the beginning of a read model: each is read from it, and
/// each after the first begins where the token of the one before says.
pub open spec fn read_through(
    key: Seq<u8>,
    query: ReadProjection,
    view: Seq<PageRow>,
    reads: Seq<PageRead>,
) -> bool {
    &&& reads.len() > 0
    &&& start_place(reads[0].start) == first_place()
    &&& forall|i: int| 0 <= i < reads.len() ==> read_from(key, query, view, #[trigger] reads[i])
    &&& forall|i: int|
        0 < i < reads.len() ==> (reads[i - 1].page.next_page_token matches Some(wire) && (
        #[trigger] reads[i]).start == start_after(wire))
}

/// A page that begins after the first rows of a read model holds the ones that follow them.
proof fn lemma_page_follows(
    key: Seq<u8>,
    query: ReadProjection,
    view: Seq<PageRow>,
    read: PageRead,
    before: int,
)
    requires
        0 <= before <= view.len(),
        rows_after(view, start_place(read.start)) == view.skip(before),
        read_from(key, query, view, read),
    ensures
        ({
            let after = before + read.page.items@.len();
            &&& after <= view.len()
            &&& read.page.items@ == view.subrange(before, after)
            &&& read.page.next_page_token is Some <==> after < view.len()
            &&& read.page.next_page_token matches Some(wire) ==> after > 0 && start_place(
                start_after(wire),
            ) == place_of(view[after - 1])
        }),
{
    let items = read.page.items@;
    assert(items =~= view.subrange(before, before + items.len()));
}

proof fn lemma_pages_follow(
    key: Seq<u8>,
    query: ReadProjection,
    view: Seq<PageRow>,
    reads: Seq<PageRead>,
    count: int,
)
    requires
        in_order(view),
        read_through(key, query, view, reads),
        0 < count <= reads.len(),
    ensures
        rows_read(reads, count).len() <= view.len(),
        rows_read(reads, count) == view.take(rows_read(reads, count).len() as int),
        reads[count - 1].page.next_page_token is Some <==> rows_read(reads, count).len()
            < view.len(),
        reads[count - 1].page.next_page_token matches Some(wire) ==> rows_read(reads, count).len()
            > 0 && start_place(start_after(wire)) == place_of(
            view[rows_read(reads, count).len() - 1],
        ),
    decreases count,
{
    let read = reads[count - 1];
    let before = rows_read(reads, count - 1).len() as int;
    if count > 1 {
        lemma_pages_follow(key, query, view, reads, count - 1);
    }
    lemma_rows_after(view, before);
    lemma_page_follows(key, query, view, read, before);
    assert(rows_read(reads, count) =~= view.take(before + read.page.items@.len()));
}

/// The pages of a read model, read one after the other until none continues, are the read model:
/// each row is on exactly one of them, and they come in order. No page holds more rows than were
/// asked for, and a page carries a token exactly when rows remain after it.
pub proof fn pages_make_up_the_view(
    key: Seq<u8>,
    query: ReadProjection,
    view: Seq<PageRow>,
    reads: Seq<PageRead>,
)
    requires
        in_order(view),
        read_through(key, query, view, reads),
    ensures
        reads.last().page.next_page_token is None ==> rows_read(reads, reads.len() as int) == view,
        forall|i: int|
            0 <= i < reads.len() ==> (#[trigger] reads[i]).page.items@.len() <= query.page_size,
        forall|i: int|
            0 <= i < reads.len() ==> ((#[trigger] reads[i]).page.next_page_token is Some
                <==> rows_read(reads, i + 1).len() < view.len()),
{
    assert forall|i: int| 0 <= i < reads.len() implies (
    #[trigger] reads[i]).page.items@.len() <= query.page_size && (
    reads[i].page.next_page_token is Some <==> rows_read(reads, i + 1).len() < view.len()) by {
        lemma_pages_follow(key, query, view, reads, i + 1);
        assert(read_from(key, query, view, reads[i]));
    }
    lemma_pages_follow(key, query, view, reads, reads.len() as int);
    assert(view.take(view.len() as int) =~= view);
}

} // verus!
