//! Plain records exchanged with the issue endpoints.

use vstd::prelude::*;

verus! {

/// A board: the collection whose issues are paged through.
#[derive(Debug)]
pub struct Board {
    pub id: u64,
    pub name: String,
}

impl Clone for Board {
    fn clone(&self) -> (r: Board)
        ensures
            r.id == self.id,
            r.name@ == self.name@,
    {
        Board { id: self.id, name: self.name.clone() }
    }
}

#[derive(Clone, Debug)]
pub struct Assignee {
    pub name: String,
}

#[derive(Clone, Debug)]
pub struct IssueType {
    pub id: String,
}

#[derive(Clone, Debug)]
pub struct Priority {
    pub id: String,
    pub icon_url: String,
    pub name: String,
    pub url: String,
}

#[derive(Clone, Debug)]
pub struct CustomField {
    pub id: String,
    pub url: String,
    pub value: String,
}

#[derive(Clone, Debug)]
pub struct Project {
    pub key: String,
}

#[derive(Clone, Debug)]
pub struct Component {
    pub name: String,
}

/// The fields of an issue to be created.
#[derive(Clone, Debug)]
pub struct Fields {
    pub assignee: Assignee,
    pub components: Vec<Component>,
    pub description: String,
    pub environment: String,
    pub issuetype: IssueType,
    pub priority: Priority,
    pub project: Project,
    pub reporter: Assignee,
    pub summary: String,
}

/// The payload that creates an issue.
#[derive(Clone, Debug)]
pub struct CreateIssue {
    pub fields: Fields,
}

/// What the server answers to a successful creation.
#[derive(Clone, Debug)]
pub struct CreateResponse {
    pub id: String,
    pub key: String,
    pub url: String,
}

} // verus!
