//! One page of a paginated collection.

use vstd::prelude::*;

verus! {

/// One batch of a larger ordered collection, as the server returned it.
#[derive(Clone, Debug)]
pub struct Paginated<T> {
    /// Metadata passed through as it came.
    pub expand: String,
    /// The page size the server used for this page.
    pub max_results: u64,
    /// Offset of the first of `values` in the whole collection.
    pub start_at: u64,
    /// Size of the whole collection when this page was served.
    pub total: u64,
    pub values: Vec<T>,
}

/// What the paging logic reads of a page.
pub struct PageModel<T> {
    pub start_at: int,
    pub max_results: int,
    pub total: int,
    pub values: Seq<T>,
}

impl<T> View for Paginated<T> {
    type V = PageModel<T>;

    open spec fn view(&self) -> PageModel<T> {
        PageModel {
            start_at: self.start_at as int,
            max_results: self.max_results as int,
            total: self.total as int,
            values: self.values@,
        }
    }
}

/// Whether the server may hold items past this page: the next page would
/// still begin within the reported total.
pub open spec fn has_more<T>(p: PageModel<T>) -> bool {
    p.start_at + p.max_results <= p.total
}

/// The page of `size` items at offset `start` of `items`, as a server that
/// holds `items` answers it.
pub open spec fn served_page<T>(items: Seq<T>, start: int, size: int) -> PageModel<T> {
    PageModel {
        start_at: start,
        max_results: size,
        total: items.len() as int,
        values: if start >= items.len() {
            Seq::empty()
        } else if start + size <= items.len() {
            items.subrange(start, start + size)
        } else {
            items.subrange(start, items.len() as int)
        },
    }
}

} // verus!
