//! Pages of a list.

use crate::api::ab::{clip, is_paged, page_of, page_start, PageQueryView};
use vstd::prelude::*;

verus! {

/// The query for the page `current` of pages with `page_size` items of the book `ab`.
pub open spec fn page_query(current: i64, page_size: i64, ab: Option<Seq<char>>) -> PageQueryView {
    PageQueryView { current: Some(current), page_size: Some(page_size), ab }
}

/// The pages from the first to page `last`, one after the other.
pub open spec fn pages_to<T>(
    items: Seq<T>,
    last: int,
    page_size: i64,
    ab: Option<Seq<char>>,
) -> Seq<T>
    decreases last,
{
    if last <= 0 {
        Seq::empty()
    } else {
        pages_to(items, last - 1, page_size, ab) + page_of(
            items,
            page_query(last as i64, page_size, ab),
        )
    }
}

/// A page whose start can be counted in 64 bits holds the items from there on, up to its size.
proof fn lemma_page<T>(
    items: Seq<T>,
    current: int,
    page_size: i64,
    ab: Option<Seq<char>>,
    start: int,
)
    requires
        page_size > 0,
        0 < current <= i64::MAX,
        start == (current - 1) * page_size,
        start <= i64::MAX,
    ensures
        start >= 0,
        page_of(items, page_query(current as i64, page_size, ab)) == items.subrange(
            clip(start, items.len() as int),
            clip(start + page_size, items.len() as int),
        ),
{
    assert(start >= 0) by (nonlinear_arith)
        requires
            start == (current - 1) * page_size,
            current > 0,
            page_size > 0,
    ;
    let q = page_query(current as i64, page_size, ab);
    assert(is_paged(q));
    assert(page_start(q) == start);
}

/// Pages tile the list, whatever book they are of: read one after the other they give its
/// items, each once and in their order. This holds as long as the place where the last page
/// starts can be counted in 64 bits.
pub proof fn law_pages_tile_the_list<T>(
    items: Seq<T>,
    last: int,
    page_size: i64,
    ab: Option<Seq<char>>,
)
    requires
        page_size > 0,
        0 <= last <= i64::MAX,
        (last - 1) * page_size <= i64::MAX,
    ensures
        pages_to(items, last, page_size, ab) == items.take(
            clip(last * page_size, items.len() as int),
        ),
    decreases last,
{
    let len = items.len() as int;
    if last > 0 {
        let start = (last - 1) * page_size;
        let end = last * page_size;
        assert(end == start + page_size) by (nonlinear_arith)
            requires
                start == (last - 1) * page_size,
                end == last * page_size,
        ;
        assert((last - 2) * page_size == start - page_size) by (nonlinear_arith)
            requires
                start == (last - 1) * page_size,
        ;
        lemma_page(items, last, page_size, ab, start);
        law_pages_tile_the_list(items, last - 1, page_size, ab);
        assert(items.take(clip(start, len)) + items.subrange(clip(start, len), clip(end, len))
            =~= items.take(clip(end, len)));
    } else {
        assert(last * page_size == 0) by (nonlinear_arith)
            requires
                last == 0,
        ;
        assert(items.take(0) =~= Seq::empty());
    }
}

/// A list of at most 2^63 - 1 items takes as many pages as it takes to hold them: read one
/// after the other they are the list, and all of them but the last are full.
pub proof fn law_all_pages_are_the_list<T>(
    items: Seq<T>,
    last: int,
    page_size: i64,
    ab: Option<Seq<char>>,
)
    requires
        page_size > 0,
        items.len() <= i64::MAX,
        0 <= last,
        last > 0 ==> (last - 1) * page_size < items.len(),
        items.len() <= last * page_size,
    ensures
        pages_to(items, last, page_size, ab) == items,
        forall|current: int|
            0 < current < last ==> #[trigger] page_of(
                items,
                page_query(current as i64, page_size, ab),
            ).len() == page_size,
{
    if last > 0 {
        assert(last - 1 <= (last - 1) * page_size) by (nonlinear_arith)
            requires
                last > 0,
                page_size > 0,
        ;
    } else {
        assert((last - 1) * page_size <= 0) by (nonlinear_arith)
            requires
                last == 0,
                page_size > 0,
        ;
    }
    law_pages_tile_the_list(items, last, page_size, ab);
    assert(items.take(items.len() as int) =~= items);
    assert forall|current: int| 0 < current < last implies #[trigger] page_of(
        items,
        page_query(current as i64, page_size, ab),
    ).len() == page_size by {
        assert(current * page_size <= (last - 1) * page_size) by (nonlinear_arith)
            requires
                current <= last - 1,
                page_size > 0,
        ;
        let start = (current - 1) * page_size;
        assert(current * page_size == start + page_size) by (nonlinear_arith)
            requires
                start == (current - 1) * page_size,
        ;
        lemma_page(items, current, page_size, ab, start);
    }
}

/// Whatever is asked for, a page holds no more than the list, and no more than was asked for;
/// without a positive page number and size it is the whole list.
pub proof fn law_page_is_bounded<T>(items: Seq<T>, q: PageQueryView)
    ensures
        page_of(items, q).len() <= items.len(),
        is_paged(q) ==> page_of(items, q).len() <= q.page_size->0,
        !is_paged(q) ==> page_of(items, q) == items,
        is_paged(q) <==> {
            &&& q.current matches Some(current) && current > 0
            &&& q.page_size matches Some(page_size) && page_size > 0
        },
{
}

/// The book that a query names plays no part in what a page holds.
pub proof fn law_page_is_the_same_for_every_book<T>(
    items: Seq<T>,
    q: PageQueryView,
    ab: Option<Seq<char>>,
)
    ensures
        page_of(items, q) == page_of(items, (PageQueryView { ab, ..q })),
{
}

/// A page is a run of neighbours that starts where the pages of its size before it end, or at
/// the end of the list if that comes first, and that is full unless the list ends before. This
/// holds as long as the place where it starts can be counted in 64 bits.
pub proof fn law_page_is_a_run<T>(items: Seq<T>, q: PageQueryView, start: int, end: int)
    requires
        q.current matches Some(current) && q.page_size matches Some(page_size) && {
            &&& current > 0
            &&& page_size > 0
            &&& start == (current - 1) * page_size
            &&& end == start + page_size
            &&& start <= i64::MAX
        },
    ensures
        start >= items.len() ==> page_of(items, q).len() == 0,
        start <= items.len() < end ==> page_of(items, q) == items.skip(start),
        end <= items.len() ==> page_of(items, q) == items.subrange(start, end),
{
    let current = q.current->0;
    let page_size = q.page_size->0;
    assert(start >= 0) by (nonlinear_arith)
        requires
            start == (current - 1) * page_size,
            current > 0,
            page_size > 0,
    ;
    assert(page_start(q) == start);
    assert(items.skip(start) =~= items.subrange(start, items.len() as int));
}

} // verus!
