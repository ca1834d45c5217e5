//! The pagination engine: a pull-based sequence of the items of a board,
//! fetched page by page on demand.
//!
//! The engine performs no I/O. A pull either hands out a buffered item, ends
//! the sequence, or asks its caller to perform the request for the next page
//! and to hand the outcome back through `resume`.

use vstd::prelude::*;

use crate::options::{query_of, with_page_params, ParamsView, SearchOptions};
use crate::page::{has_more, PageModel, Paginated};
use crate::records::Board;
use crate::request::{list_request, Error, Issues, Request, RequestView};

verus! {

/// What the engine holds, as the contracts see it.
pub struct IterState<T> {
    pub board_id: nat,
    pub options: ParamsView,
    pub page: PageModel<T>,
    /// Set once the sequence has ended for good.
    pub done: bool,
}

/// The outcome of a pull, as the contracts see it; `Fetch` carries the offset
/// of the page asked for.
pub enum Step<T> {
    Item(T),
    Fetch(int),
    End,
}

/// The outcome of a pull.
pub enum Pull<T> {
    /// The next item.
    Item(T),
    /// The buffer is empty and more pages remain: perform this request and
    /// hand its outcome to `resume`.
    Fetch(Request),
    /// The sequence is over.
    End,
}

/// The state after the first page was fetched.
pub open spec fn initial_state<T>(board_id: nat, options: ParamsView, first: PageModel<T>) -> IterState<T> {
    IterState { board_id, options, page: first, done: false }
}

/// Offset of the page after the buffered one.
pub open spec fn next_offset<T>(s: IterState<T>) -> int {
    s.page.start_at + s.page.max_results
}

/// What a pull does in state `s`: pop the last buffered item; else end if the
/// sequence is over or no page remains; else ask for the next page.
pub open spec fn pull_step<T>(s: IterState<T>) -> Step<T> {
    if s.page.values.len() > 0 {
        Step::Item(s.page.values.last())
    } else if s.done || !has_more(s.page) {
        Step::End
    } else {
        Step::Fetch(next_offset(s))
    }
}

/// The state after a pull in state `s`.
pub open spec fn after_pull<T>(s: IterState<T>) -> IterState<T> {
    if s.page.values.len() > 0 {
        IterState { page: PageModel { values: s.page.values.drop_last(), ..s.page }, ..s }
    } else if s.done || !has_more(s.page) {
        IterState { done: true, ..s }
    } else {
        s
    }
}

/// The request for the page after the buffered one: the original options,
/// with the offset moved past the buffered page and the page size kept.
pub open spec fn next_page_request<T>(s: IterState<T>) -> RequestView {
    list_request(
        s.board_id,
        query_of(with_page_params(s.options, next_offset(s) as nat, s.page.max_results as nat)),
    )
}

/// What a resumed pull hands out: the last item of the fetched page, if it
/// came and holds any.
pub open spec fn resume_item<T>(s: IterState<T>, fetched: Option<PageModel<T>>) -> Option<T> {
    match fetched {
        Some(p) => if p.values.len() > 0 {
            Some(p.values.last())
        } else {
            None
        },
        None => None,
    }
}

/// The state after a resumed pull: the fetched page replaces the buffer, less
/// the item handed out; a failed fetch ends the sequence.
pub open spec fn after_resume<T>(s: IterState<T>, fetched: Option<PageModel<T>>) -> IterState<T> {
    match fetched {
        Some(p) => if p.values.len() > 0 {
            IterState { page: PageModel { values: p.values.drop_last(), ..p }, ..s }
        } else {
            IterState { page: p, ..s }
        },
        None => IterState { done: true, ..s },
    }
}

/// A fetch outcome as the contracts see it.
pub open spec fn fetched_view<T>(fetched: Result<Paginated<T>, Error>) -> Option<PageModel<T>> {
    match fetched {
        Ok(p) => Some(p@),
        Err(_) => None,
    }
}

/// Walks the issues of a board across pages. It cannot be rewound: a new
/// walk starts from a new value.
pub struct IssuesIter<T> {
    board: Board,
    search_options: SearchOptions,
    results: Paginated<T>,
    done: bool,
}

impl<T> View for IssuesIter<T> {
    type V = IterState<T>;

    closed spec fn view(&self) -> IterState<T> {
        IterState {
            board_id: self.board.id as nat,
            options: self.search_options@,
            page: self.results@,
            done: self.done,
        }
    }
}

impl<T> IssuesIter<T> {
    /// Starts a walk of `board` under `options` from the outcome of the
    /// request for its first page (`Issues::list(board, options)`). A failed
    /// first fetch is returned and no walk starts.
    pub fn new(board: &Board, options: &SearchOptions, first: Result<Paginated<T>, Error>) -> (r:
        Result<IssuesIter<T>, Error>)
        ensures
            match first {
                Ok(p) => r matches Ok(it) && it@ == initial_state(board.id as nat, options@, p@),
                Err(e) => r == Err::<IssuesIter<T>, Error>(e),
            },
    {
        match first {
            Ok(results) => Ok(
                IssuesIter {
                    board: board.clone(),
                    search_options: options.clone(),
                    results,
                    done: false,
                },
            ),
            Err(e) => Err(e),
        }
    }

    /// Whether the server may hold items past the buffered page.
    pub fn more(&self) -> (r: bool)
        ensures
            r == has_more(self@.page),
    {
        self.results.max_results <= self.results.total && self.results.start_at
            <= self.results.total - self.results.max_results
    }

    /// Pulls the next item. Buffered items come out last first, with no
    /// request; once the buffer is empty a request for the next page is asked
    /// for, unless the sequence is over.
    pub fn next(&mut self) -> (r: Pull<T>)
        ensures
            final(self)@ == after_pull(old(self)@),
            match r {
                Pull::Item(t) => pull_step(old(self)@) == Step::Item(t),
                Pull::Fetch(req) => pull_step(old(self)@) == Step::<T>::Fetch(next_offset(old(self)@))
                    && req@ == next_page_request(old(self)@),
                Pull::End => pull_step(old(self)@) == Step::<T>::End,
            },
            old(self)@.page.values.len() > 0 ==> r is Item,
    {
        match self.results.values.pop() {
            Some(t) => Pull::Item(t),
            None => {
                if self.done || !self.more() {
                    self.done = true;
                    Pull::End
                } else {
                    let options = self.search_options.with_page(
                        self.results.start_at + self.results.max_results,
                        self.results.max_results,
                    );
                    Pull::Fetch(Issues::new().list(&self.board, &options))
                }
            },
        }
    }

    /// Finishes a pull that asked for a page, from the outcome of its request.
    /// A fetched page replaces the buffer and its last item is handed out; a
    /// failed fetch ends the sequence without an error.
    pub fn resume(&mut self, fetched: Result<Paginated<T>, Error>) -> (r: Option<T>)
        ensures
            r == resume_item(old(self)@, fetched_view(fetched)),
            final(self)@ == after_resume(old(self)@, fetched_view(fetched)),
    {
        match fetched {
            Ok(page) => {
                self.results = page;
                self.results.values.pop()
            },
            Err(_) => {
                self.done = true;
                None
            },
        }
    }
}

impl Issues {
    /// Starts a walk of `board`'s issues; see `IssuesIter::new`.
    pub fn iter<T>(&self, board: &Board, options: &SearchOptions, first: Result<Paginated<T>, Error>) -> (r:
        Result<IssuesIter<T>, Error>)
        ensures
            match first {
                Ok(p) => r matches Ok(it) && it@ == initial_state(board.id as nat, options@, p@),
                Err(e) => r == Err::<IssuesIter<T>, Error>(e),
            },
    {
        IssuesIter::new(board, options, first)
    }
}

} // verus!
