//! The requests that the issue endpoints are reached by.

use vstd::prelude::*;
use vstd::string::*;

use crate::options::{decimal, decimal_string, query_of, SearchOptions};
use crate::records::Board;

verus! {

/// Why a request brought no usable answer: a transport failure, a status
/// other than success, or a payload that could not be decoded.
#[derive(Clone, Debug)]
pub enum Error {
    RequestFailed(String),
}

#[derive(Clone, Copy, Debug, PartialEq, Eq, Structural)]
pub enum Method {
    Get,
    Post,
}

/// One request: its method, the API family that selects the base URL, and
/// the path under it, query string included.
#[derive(Clone, Debug)]
pub struct Request {
    pub method: Method,
    pub api: String,
    pub path: String,
}

pub struct RequestView {
    pub method: Method,
    pub api: Seq<char>,
    pub path: Seq<char>,
}

impl View for Request {
    type V = RequestView;

    open spec fn view(&self) -> RequestView {
        RequestView { method: self.method, api: self.api@, path: self.path@ }
    }
}

/// The API family of single issues.
pub open spec fn core_api() -> Seq<char> {
    "api"@
}

/// The API family of boards and their pages.
pub open spec fn agile_api() -> Seq<char> {
    "agile"@
}

/// The request for one issue.
pub open spec fn get_request(id: Seq<char>) -> RequestView {
    RequestView { method: Method::Get, api: core_api(), path: "/issue/"@ + id }
}

/// The request that creates an issue.
pub open spec fn create_request() -> RequestView {
    RequestView { method: Method::Post, api: core_api(), path: "/issue"@ }
}

/// The request for one page of a board's issues.
pub open spec fn list_request(board_id: nat, query: Seq<char>) -> RequestView {
    RequestView {
        method: Method::Get,
        api: agile_api(),
        path: "/board/"@ + decimal(board_id) + "/issue?"@ + query,
    }
}

/// The issue endpoints.
#[derive(Clone, Copy, Debug)]
pub struct Issues {}

impl Issues {
    pub fn new() -> Issues {
        Issues {}
    }

    /// The request for the issue `id`.
    pub fn get(&self, id: &str) -> (r: Request)
        ensures
            r@ == get_request(id@),
    {
        let path = String::from_str("/issue/").concat(id);
        Request { method: Method::Get, api: String::from_str("api"), path }
    }

    /// The request that creates an issue; the payload goes in its body.
    pub fn create(&self) -> (r: Request)
        ensures
            r@ == create_request(),
    {
        Request { method: Method::Post, api: String::from_str("api"), path: String::from_str("/issue") }
    }

    /// The request for the page of `board`'s issues that `options` select.
    pub fn list(&self, board: &Board, options: &SearchOptions) -> (r: Request)
        ensures
            r@ == list_request(board.id as nat, query_of(options@)),
    {
        let id = decimal_string(board.id);
        let query = options.serialize();
        let path = String::from_str("/board/").concat(id.as_str()).concat("/issue?").concat(
            query.as_str(),
        );
        Request { method: Method::Get, api: String::from_str("agile"), path }
    }
}

} // verus!
