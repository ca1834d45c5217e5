//! Issue endpoints of a Jira client and an engine that walks a paginated
//! collection of issues one item at a time.
//!
//! The library decides what to request and what to hand out; performing the
//! HTTP requests is left to the caller.

pub mod options;
pub mod records;
pub mod request;
pub mod page;
pub mod paging;
pub mod walk;
