//! The continuation protocol of a paginated listing.
//!
//! A listing is consumed page by page; each page carries its items and an
//! opaque reference to the next page, or nothing when the sequence is over.
//! The cursor below tracks that state, and the spec functions say what a
//! whole run over a sequence of pages must produce.

use vstd::prelude::*;

verus! {

/// Every page is requested with this size, the largest the listing allows.
pub const PER_PAGE: u8 = 100;

/// One consumed page, as the model sees it: the items it carried, in
/// response order, and the next-page reference or its absence.
pub ghost struct PageV<T> {
    pub items: Seq<T>,
    pub next: Option<Seq<char>>,
}

/// Pagination state of one listing run.
pub enum Cursor {
    /// The first request has not been issued yet.
    Start,
    /// The last response carried a reference to a further page.
    Next(String),
    /// The last response carried no next-page reference: the run is over.
    Done,
}

/// The cursor a run must hold after consuming the given pages: nothing
/// fetched yet, or exactly what the last page's next reference said.
pub open spec fn cursor_matches<T>(c: Cursor, pages: Seq<PageV<T>>) -> bool {
    if pages.len() == 0 {
        c is Start
    } else {
        match pages.last().next {
            Option::Some(r) => match c {
                Cursor::Next(s) => s@ == r,
                _ => false,
            },
            Option::None => c is Done,
        }
    }
}

/// The sum of the item counts of the given pages.
pub open spec fn total_items<T>(pages: Seq<PageV<T>>) -> int
    decreases pages.len(),
{
    if pages.len() == 0 {
        0
    } else {
        total_items(pages.drop_last()) + pages.last().items.len()
    }
}

/// The flat records of a run: every item of every page, in page order and
/// in item order within each page, each mapped through `f`.
pub open spec fn flat_records<T, R>(pages: Seq<PageV<T>>, f: spec_fn(T) -> R) -> Seq<R> {
    pages.flat_map(|p: PageV<T>| p.items.map_values(f))
}

/// Consuming one more page extends the flat output by exactly that page's
/// mapped items, at the end.
pub proof fn lemma_flat_records_push<T, R>(pages: Seq<PageV<T>>, f: spec_fn(T) -> R, p: PageV<T>)
    ensures
        flat_records(pages.push(p), f) == flat_records(pages, f) + p.items.map_values(f),
{
    pages.lemma_flat_map_push(|q: PageV<T>| q.items.map_values(f), p);
}

/// The number of flat records equals the sum of the page item counts,
/// however the items fall across page boundaries.
pub proof fn lemma_flat_records_count<T, R>(pages: Seq<PageV<T>>, f: spec_fn(T) -> R)
    ensures
        flat_records(pages, f).len() == total_items(pages),
    decreases pages.len(),
{
    if pages.len() == 0 {
        assert(flat_records(pages, f) =~= Seq::<R>::empty());
    } else {
        let rest = pages.drop_last();
        lemma_flat_records_count(rest, f);
        lemma_flat_records_push(rest, f, pages.last());
        assert(rest.push(pages.last()) =~= pages);
    }
}

} // verus!
