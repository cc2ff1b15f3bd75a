//! What the caller can ask for with each request.

use vstd::prelude::*;

verus! {

/// Which part of a list is asked for: how many entries to pass over, and how
/// many to take.
#[derive(Debug, Clone, Copy, PartialEq, Eq)]
pub struct Pagination {
    pub skip: Option<i32>,
    pub take: Option<i32>,
}

impl Default for Pagination {
    /// The first twenty entries.
    fn default() -> (page: Pagination)
        ensures
            page == (Pagination { skip: Some(0i32), take: Some(20i32) }),
    {
        Pagination { skip: Some(0), take: Some(20) }
    }
}

/// How many entries to pass over: what `page` says; none where it says
/// nothing, and none where there is no `page`.
pub open spec fn skip_of(page: Option<Pagination>) -> int {
    match page {
        Some(Pagination { skip: Some(n), .. }) => n as int,
        _ => 0,
    }
}

/// How many entries to take: what `page` says, and none where it says
/// nothing; twenty where there is no `page`.
pub open spec fn take_of(page: Option<Pagination>) -> int {
    match page {
        Some(Pagination { take: Some(n), .. }) => n as int,
        Some(_) => 0,
        None => 20,
    }
}

impl Pagination {
    /// How many entries to pass over.
    pub fn skip_or_default(page: Option<Pagination>) -> (n: i32)
        ensures
            n == skip_of(page),
    {
        match page {
            Some(page) => match page.skip {
                Some(n) => n,
                None => 0,
            },
            None => 0,
        }
    }

    /// How many entries to take.
    pub fn take_or_default(page: Option<Pagination>) -> (n: i32)
        ensures
            n == take_of(page),
    {
        match page {
            Some(page) => match page.take {
                Some(n) => n,
                None => 0,
            },
            None => 20,
        }
    }
}

/// What to ask of the list of saved queries.
#[derive(Debug, Clone, Copy, PartialEq, Eq)]
pub struct GetSavedQueries {
    pub page: Option<Pagination>,
}

impl Default for GetSavedQueries {
    fn default() -> (options: GetSavedQueries)
        ensures
            options == (GetSavedQueries {
                page: Some(Pagination { skip: Some(0i32), take: Some(20i32) }),
            }),
    {
        GetSavedQueries { page: Some(Pagination::default()) }
    }
}

/// What to ask of the list of issues.
#[derive(Debug, PartialEq, Eq)]
pub struct GetIssues {
    pub query: Option<String>,
    pub page: Option<Pagination>,
}

impl Default for GetIssues {
    /// The first twenty unresolved issues of the one who asks.
    fn default() -> (options: GetIssues)
        ensures
            options.query matches Some(q) && q@ == "for: me #Unresolved"@,
            options.page == Some(Pagination { skip: Some(0i32), take: Some(20i32) }),
    {
        GetIssues { query: Some("for: me #Unresolved".to_owned()), page: Some(Pagination::default()) }
    }
}

impl Clone for GetIssues {
    fn clone(&self) -> (copy: Self)
        ensures
            copy == *self,
    {
        GetIssues {
            query: match &self.query {
                Some(q) => Some(q.clone()),
                None => None,
            },
            page: self.page,
        }
    }
}

/// Which issue to ask for.
#[derive(Debug, PartialEq, Eq)]
pub struct GetIssue {
    pub id: String,
}

impl Clone for GetIssue {
    fn clone(&self) -> (copy: Self)
        ensures
            copy == *self,
    {
        GetIssue {
            id: self.id.clone(),
        }
    }
}

/// The issue to create.
#[derive(Debug, PartialEq, Eq)]
pub struct CreateIssue {
    /// The identifier of the project that it is to belong to.
    pub project: String,
    pub summary: String,
    pub description: Option<String>,
}

impl Clone for CreateIssue {
    fn clone(&self) -> (copy: Self)
        ensures
            copy == *self,
    {
        CreateIssue {
            project: self.project.clone(),
            summary: self.summary.clone(),
            description: match &self.description {
                Some(text) => Some(text.clone()),
                None => None,
            },
        }
    }
}

/// What to change of an issue.
#[derive(Debug, PartialEq, Eq)]
pub struct UpdateIssue {
    pub id: String,
    pub description: Option<String>,
    pub summary: Option<String>,
}

impl Clone for UpdateIssue {
    fn clone(&self) -> (copy: Self)
        ensures
            copy == *self,
    {
        UpdateIssue {
            id: self.id.clone(),
            description: match &self.description {
                Some(text) => Some(text.clone()),
                None => None,
            },
            summary: match &self.summary {
                Some(text) => Some(text.clone()),
                None => None,
            },
        }
    }
}

/// A command to apply to an issue.
#[derive(Debug, PartialEq, Eq)]
pub struct ApplyIssueCommand {
    pub id: String,
    /// The command, as one would type it.
    pub query: String,
}

impl Clone for ApplyIssueCommand {
    fn clone(&self) -> (copy: Self)
        ensures
            copy == *self,
    {
        ApplyIssueCommand {
            id: self.id.clone(),
            query: self.query.clone(),
        }
    }
}

/// A comment to add to an issue.
#[derive(Debug, PartialEq, Eq)]
pub struct AddIssueComment {
    pub id: String,
    pub comment: String,
}

impl Clone for AddIssueComment {
    fn clone(&self) -> (copy: Self)
        ensures
            copy == *self,
    {
        AddIssueComment {
            id: self.id.clone(),
            comment: self.comment.clone(),
        }
    }
}

/// What to ask of the list of projects: nothing can be chosen.
#[derive(Debug, Clone, Copy, PartialEq, Eq)]
pub struct GetProjects {}

impl Default for GetProjects {
    fn default() -> (options: GetProjects)
        ensures
            options == (GetProjects {  }),
    {
        GetProjects {  }
    }
}

} // verus!
